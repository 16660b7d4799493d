use evict::error::ServiceError;
use evict::port_service::{
    find_process_by_port, PortBinding, TableLookup, TableReply, TableRequest, TableStep,
};
use evict::process_service::{
    get_process_name, kill_process, KillStep, NameLookup, NameStep, ProcessReply, ProcessRequest,
    Termination,
};
use evict::session::{begin, identified, resolved, terminated, Directive};

/// A machine with processes that listen on ports.
struct Machine {
    /// Port, process and path of its program.
    listeners: Vec<(u16, u32, String)>,
    /// The processes that may not be opened.
    guarded: Vec<u32>,
    /// The handle that is open, if any: the process it belongs to.
    open: Option<u32>,
    /// How many handles were opened and closed.
    opened: u32,
    closed: u32,
}

impl Machine {
    fn with(listeners: &[(u16, u32, &str)]) -> Machine {
        Machine {
            listeners: listeners.iter().map(|(p, i, n)| (*p, *i, n.to_string())).collect(),
            guarded: Vec::new(),
            open: None,
            opened: 0,
            closed: 0,
        }
    }

    fn table(&self) -> Vec<u8> {
        let mut table = (self.listeners.len() as u32).to_le_bytes().to_vec();
        for (port, pid, _) in &self.listeners {
            table.extend_from_slice(&2u32.to_le_bytes());
            table.extend_from_slice(&[0, 0, 0, 0]);
            table.extend_from_slice(&[(port >> 8) as u8, (port & 0xff) as u8, 0, 0]);
            table.extend_from_slice(&[0, 0, 0, 0]);
            table.extend_from_slice(&[0, 0, 0, 0]);
            table.extend_from_slice(&pid.to_le_bytes());
        }
        table
    }

    fn answer_table(&self, request: TableRequest) -> TableReply {
        let table = self.table();
        match request {
            TableRequest::Probe => {
                TableReply { code: 122, size: table.len() as u32, buffer: Vec::new() }
            }
            TableRequest::Fill { size } => {
                if (size as usize) < table.len() {
                    TableReply { code: 122, size: table.len() as u32, buffer: vec![0; size as usize] }
                } else {
                    TableReply { code: 0, size: table.len() as u32, buffer: table }
                }
            }
        }
    }

    fn answer_process(&mut self, request: ProcessRequest) -> ProcessReply {
        match request {
            ProcessRequest::Open { pid, .. } => {
                assert_eq!(self.open, None, "a second handle was asked for");
                if self.guarded.contains(&pid) {
                    ProcessReply::Failed("Access is denied. (0x80070005)".to_string())
                } else if self.listeners.iter().any(|(_, p, _)| *p == pid) {
                    self.open = Some(pid);
                    self.opened += 1;
                    ProcessReply::Done
                } else {
                    ProcessReply::Failed("The parameter is incorrect. (0x80070057)".to_string())
                }
            }
            ProcessRequest::QueryImageName { .. } => {
                let pid = self.open.expect("no handle is open");
                let path = &self.listeners.iter().find(|(_, p, _)| *p == pid).unwrap().2;
                ProcessReply::ImageName(path.encode_utf16().collect())
            }
            ProcessRequest::Terminate { exit_code } => {
                assert_eq!(exit_code, 1);
                let pid = self.open.expect("no handle is open");
                self.listeners.retain(|(_, p, _)| *p != pid);
                ProcessReply::Done
            }
            ProcessRequest::Close => {
                assert!(self.open.is_some(), "no handle is open");
                self.open = None;
                self.closed += 1;
                ProcessReply::Done
            }
        }
    }

    fn resolve(&self, port: u16) -> Result<Option<PortBinding>, ServiceError> {
        let mut lookup = TableLookup::start(port);
        loop {
            let reply = self.answer_table(lookup.request());
            match find_process_by_port(lookup, &reply) {
                TableStep::Continue(next) => lookup = next,
                TableStep::Finished(result) => return result,
            }
        }
    }

    fn name(&mut self, pid: u32) -> Result<String, ServiceError> {
        let mut lookup = NameLookup::start(pid);
        loop {
            let reply = self.answer_process(lookup.request());
            match get_process_name(lookup, reply) {
                NameStep::Continue(next) => lookup = next,
                NameStep::Finished(result) => return result,
            }
        }
    }

    fn kill(&mut self, pid: u32) -> Result<(), ServiceError> {
        let mut termination = Termination::start(pid);
        loop {
            let reply = self.answer_process(termination.request());
            match kill_process(termination, reply) {
                KillStep::Continue(next) => termination = next,
                KillStep::Finished(result) => return result,
            }
        }
    }

    /// One run of the tool on this machine: what it wrote to the output and to
    /// the error stream, and its exit code.
    fn run(&mut self, words: &[&str]) -> (String, String, i32) {
        let args: Vec<String> = words.iter().map(|w| w.to_string()).collect();
        let mut out = String::new();
        let mut directive = begin(&args);
        loop {
            directive = match directive {
                Directive::Resolve { port } => resolved(port, self.resolve(port)),
                Directive::Identify { binding } => {
                    let name = self.name(binding.pid);
                    identified(binding, name)
                }
                Directive::Terminate { binding, stdout } => {
                    out.push_str(&stdout);
                    let result = self.kill(binding.pid);
                    terminated(binding.port, result)
                }
                Directive::Exit { code, stdout, stderr } => {
                    out.push_str(&stdout);
                    assert_eq!(self.open, None, "a handle was left open");
                    assert_eq!(self.opened, self.closed);
                    return (out, stderr, code);
                }
            };
        }
    }
}

fn usual_machine() -> Machine {
    Machine::with(&[
        (135, 1008, "C:\\Windows\\System32\\svchost.exe"),
        (445, 4, "C:\\Windows\\System32\\ntoskrnl.exe"),
        (3000, 4321, "C:\\Program Files\\nodejs\\node.exe"),
        (58888, 6060, "C:\\work\\target\\debug\\deps\\integration_test-0f3a.exe"),
    ])
}

#[test]
fn test_complete_flow_with_free_port() {
    let port = 54321;

    let (stdout, stderr, code) = usual_machine().run(&["evict", &port.to_string()]);

    assert!(
        stdout.contains("not in use") || stderr.contains("not in use"),
        "Expected 'not in use' message for free port. stdout: {}, stderr: {}",
        stdout,
        stderr
    );
    assert_eq!(stdout, "Port 54321 is not in use\n");
    assert_eq!(stderr, "");
    assert_eq!(code, 0);
}

#[test]
fn test_no_arguments_shows_usage() {
    let (stdout, stderr, code) = usual_machine().run(&["evict"]);

    assert!(
        stderr.contains("Usage:") || stderr.contains("usage"),
        "Expected usage message when no arguments provided. stderr: {}",
        stderr
    );
    assert!(code != 0, "Should exit with error when no arguments provided");
    assert_eq!(code, 1);
    assert_eq!(stdout, "");
    assert_eq!(
        stderr,
        "Error: Usage: evict <port>\n\nTerminate the process using the specified port.\n\nExample:\n  evict 8080\n\nFor more information, use: evict --help\n"
    );
}

#[test]
fn test_invalid_port_shows_error() {
    let (stdout, stderr, code) = usual_machine().run(&["evict", "0"]);

    assert!(
        stderr.contains("Error:") || stderr.contains("error"),
        "Expected error message for invalid port. stderr: {}",
        stderr
    );
    assert!(code != 0, "Should exit with error for invalid port");
    assert!(stderr.contains("between 1 and 65535"));
    assert_eq!(stderr, "Error: Port must be between 1 and 65535, got: 0\n");
    assert_eq!(stdout, "");
    assert_eq!(code, 1);
}

#[test]
fn test_non_numeric_port_shows_error() {
    let (stdout, stderr, code) = usual_machine().run(&["evict", "abc"]);

    assert!(
        stderr.contains("Error:") || stderr.contains("error") || stderr.contains("Invalid"),
        "Expected error message for non-numeric port. stderr: {}",
        stderr
    );
    assert!(code != 0, "Should exit with error for non-numeric port");
    assert_eq!(stderr, "Error: Invalid port: 'abc' is not a valid number\n");
    assert_eq!(stdout, "");
    assert_eq!(code, 1);
}

#[test]
fn test_complete_flow_with_test_process() {
    let port = 58888;
    let mut machine = usual_machine();

    let (stdout, stderr, code) = machine.run(&["evict", &port.to_string()]);

    assert!(
        stdout.contains("PID:") || stdout.contains("process"),
        "Expected process information. stdout: {}",
        stdout
    );
    assert_eq!(
        stdout,
        "Found process using port:\n  PID: 6060\n  Name: integration_test-0f3a.exe\n\nTerminating process...\nPort 58888 is now free\n"
    );
    assert_eq!(stderr, "");
    assert_eq!(code, 0);
    assert_eq!(machine.opened, 2);
    assert_eq!(machine.closed, 2);

    assert_eq!(machine.resolve(port), Ok(None));
    let (stdout, _, code) = machine.run(&["evict", &port.to_string()]);
    assert_eq!(stdout, "Port 58888 is not in use\n");
    assert_eq!(code, 0);
}

#[test]
fn help_is_shown_and_nothing_is_done() {
    for flag in ["-h", "--help"] {
        let mut machine = usual_machine();
        let (stdout, stderr, code) = machine.run(&["evict.exe", flag]);
        assert!(stdout.starts_with("evict - Port Killer Tool\n\nUSAGE:\n    evict.exe <PORT>\n"));
        assert!(stdout.ends_with("try running as administrator.\n"));
        assert_eq!(stderr, "");
        assert_eq!(code, 0);
        assert_eq!(machine.opened, 0);
        assert_eq!(machine.listeners.len(), 4);
    }
}

#[test]
fn a_port_above_the_range_is_no_number() {
    let (stdout, stderr, code) = usual_machine().run(&["evict", "65536"]);
    assert_eq!(stderr, "Error: Invalid port: '65536' is not a valid number\n");
    assert_eq!(stdout, "");
    assert_eq!(code, 1);
}

#[test]
fn a_guarded_process_is_reported_with_the_hint() {
    let mut machine = usual_machine();
    machine.guarded.push(4);
    let (stdout, stderr, code) = machine.run(&["evict", "445"]);
    assert_eq!(stdout, "");
    assert_eq!(
        stderr,
        "Error: Failed to open process 4: Access is denied. (0x80070005)\nHint: Try running as administrator\n"
    );
    assert_eq!(code, 1);
    assert_eq!(machine.listeners.len(), 4);
}

#[test]
fn the_stages_of_a_run() {
    let binding = PortBinding { pid: 4321, port: 3000 };
    let args = vec!["evict".to_string(), "3000".to_string()];
    assert_eq!(begin(&args), Directive::Resolve { port: 3000 });
    assert_eq!(resolved(3000, Ok(Some(binding))), Directive::Identify { binding });
    assert_eq!(
        resolved(3000, Ok(None)),
        Directive::Exit {
            code: 0,
            stdout: "Port 3000 is not in use\n".to_string(),
            stderr: String::new()
        }
    );
    assert_eq!(
        resolved(3000, Err(ServiceError::TableSize { code: 5 })),
        Directive::Exit {
            code: 1,
            stdout: String::new(),
            stderr: "Error: Failed to query TCP table size: error code 5\nHint: Try running as administrator\n".to_string()
        }
    );
    assert_eq!(
        identified(binding, Ok("node.exe".to_string())),
        Directive::Terminate {
            binding,
            stdout: "Found process using port:\n  PID: 4321\n  Name: node.exe\n\n".to_string()
        }
    );
    assert_eq!(
        identified(binding, Err(ServiceError::EmptyName)),
        Directive::Exit {
            code: 1,
            stdout: String::new(),
            stderr: "Error: Process name is empty\nHint: Try running as administrator\n".to_string()
        }
    );
    assert_eq!(
        terminated(3000, Ok(())),
        Directive::Exit {
            code: 0,
            stdout: "Terminating process...\nPort 3000 is now free\n".to_string(),
            stderr: String::new()
        }
    );
    assert_eq!(
        terminated(3000, Err(ServiceError::Terminate { pid: 4321, reason: "Access is denied. (0x80070005)".to_string() })),
        Directive::Exit {
            code: 1,
            stdout: String::new(),
            stderr: "Error: Failed to terminate process 4321: Access is denied. (0x80070005)\nHint: Try running as administrator\n".to_string()
        }
    );
}

#[test]
fn every_port_in_range_begins_a_search() {
    for port in 1u16..=65535 {
        let args = vec!["evict".to_string(), port.to_string()];
        assert_eq!(begin(&args), Directive::Resolve { port });
    }
}
