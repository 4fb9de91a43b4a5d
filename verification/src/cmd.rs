//! Base building block of the crate: a specification of a command.
//!
//! A [`Cmd`](Cmd) can be run as a one-off command or wrapped into a
//! long running [`Process`](crate::process). Every run mode goes
//! through the platform shell, so the executable text may hold pipes
//! and redirection. The host application performs the actual spawn;
//! the pieces it needs — the shell invocation, the stream wiring, the
//! grace period, and the reading of a finished run — are decided
//! here.

use vstd::prelude::*;
use vstd::utf8::{decode_utf8, encode_utf8, valid_utf8};
use crate::digits::{dec_digits_part, dec_value, is_u64_literal, parse_u64};
use crate::env::Env;
use crate::loc::Location;
use crate::process::ExitResult;
use crate::result::Error;

verus! {

/// Struct holds a specification of a command. Can be used for
/// running one-off commands, long running processes etc.
pub struct Cmd<Loc> {
    /// Command to run.
    pub exe: String,
    /// Environment of a process.
    pub env: Env,
    /// Working directory of a process.
    pub pwd: Loc,
    /// Message displayed when running a command.
    pub msg: Option<String>,
}

impl<Loc> Cmd<Loc> where Loc: Location {
    /// Command to run.
    pub fn exe(&self) -> (r: &str)
        ensures
            r@ == self.exe@,
    {
        self.exe.as_str()
    }

    /// Environment of a process.
    pub fn env(&self) -> (r: &Env)
        ensures
            *r == self.env,
    {
        &self.env
    }

    /// Working directory of a process.
    pub fn pwd(&self) -> (r: &Loc)
        ensures
            *r == self.pwd,
    {
        &self.pwd
    }

    /// Message displayed when running a command.
    pub fn msg(&self) -> (r: Option<&String>)
        ensures
            match r {
                Some(m) => self.msg == Some(*m),
                None => self.msg is None,
            },
    {
        match &self.msg {
            Some(m) => Some(m),
            None => None,
        }
    }
}

/// The platform shell through which every command runs.
pub fn shell() -> (r: &'static str)
    ensures
        r@ == "/bin/sh"@,
{
    "/bin/sh"
}

/// The argument list handed to the shell: run the text as one shell
/// command, so it may hold pipes and redirection.
pub fn shelled(cmd: &str) -> (r: Vec<String>)
    ensures
        r@.len() == 2,
        r@[0]@ == "-c"@,
        r@[1]@ == cmd@,
{
    let mut v: Vec<String> = Vec::new();
    v.push("-c".to_owned());
    v.push(cmd.to_owned());
    v
}

/// The default grace period before a hanged process is killed, in
/// milliseconds: ten seconds.
pub const DEFAULT_TIMEOUT_MS: u64 = 10_000;

/// Amount of time to wait before killing a hanged process, in
/// milliseconds.
///
/// By default the timeout is 10 seconds; the `PROCESS_TIMEOUT`
/// environment variable (in seconds) overrides it, and the host
/// hands its value to [`KillTimeout::from_var`](KillTimeout::from_var).
#[derive(Clone, Copy, Debug, PartialEq, Eq, Structural)]
pub struct KillTimeout {
    /// The grace period in milliseconds.
    pub millis: u64,
}

/// The seconds value the `PROCESS_TIMEOUT` variable holds, if it is a
/// well-formed unsigned integer.
pub open spec fn timeout_var_value(s: Seq<char>) -> Option<int> {
    let bytes = encode_utf8(s);
    if is_u64_literal(bytes) {
        Some(dec_value(dec_digits_part(bytes)))
    } else {
        None
    }
}

impl KillTimeout {
    /// Constructs a new timeout.
    pub fn new(millis: u64) -> (r: Self)
        ensures
            r.millis == millis,
    {
        KillTimeout { millis }
    }

    /// Returns the underlying duration, in milliseconds.
    pub fn duration(&self) -> (r: u64)
        ensures
            r == self.millis,
    {
        self.millis
    }

    /// Resolves the default timeout from the optional
    /// `PROCESS_TIMEOUT` variable: absent gives the 10 s default; a
    /// well-formed number of seconds is used (saturating in
    /// milliseconds); anything else falls back to the default, with
    /// the second component flagging that a warning is owed.
    pub fn from_var(var: Option<&String>) -> (r: (KillTimeout, bool))
        ensures
            var is None ==> r.0.millis == DEFAULT_TIMEOUT_MS && !r.1,
            var matches Some(s) ==> match timeout_var_value(s@) {
                Some(secs) => !r.1 && r.0.millis == if secs * 1000 <= u64::MAX {
                    secs * 1000
                } else {
                    u64::MAX as int
                },
                None => r.1 && r.0.millis == DEFAULT_TIMEOUT_MS,
            },
    {
        match var {
            None => (KillTimeout::new(DEFAULT_TIMEOUT_MS), false),
            Some(s) => match parse_u64(s.as_str()) {
                Some(secs) => {
                    let ms = match secs.checked_mul(1000) {
                        Some(x) => x,
                        None => u64::MAX,
                    };
                    (KillTimeout::new(ms), false)
                },
                None => (KillTimeout::new(DEFAULT_TIMEOUT_MS), true),
            },
        }
    }
}

/// How one standard stream of a spawned child is wired.
#[derive(Clone, Copy, Debug, PartialEq, Eq, Structural)]
pub enum StdioMode {
    /// The child shares the parent's stream.
    Inherit,
    /// The stream is discarded.
    Null,
    /// The stream is captured through a pipe.
    Piped,
}

/// Options for spawning a process from a [`Cmd`](Cmd).
pub struct SpawnOptions {
    /// Stdout wiring.
    pub stdout: StdioMode,
    /// Stderr wiring.
    pub stderr: StdioMode,
    /// Grace period before a hanged process is killed.
    pub timeout: KillTimeout,
}

impl SpawnOptions {
    /// Options of a plain run: both streams inherited.
    pub fn inherited(timeout: KillTimeout) -> (r: Self)
        ensures
            r.stdout == StdioMode::Inherit,
            r.stderr == StdioMode::Inherit,
            r.timeout == timeout,
    {
        SpawnOptions { stdout: StdioMode::Inherit, stderr: StdioMode::Inherit, timeout }
    }

    /// Options of a silent run: both streams discarded.
    pub fn nulled(timeout: KillTimeout) -> (r: Self)
        ensures
            r.stdout == StdioMode::Null,
            r.stderr == StdioMode::Null,
            r.timeout == timeout,
    {
        SpawnOptions { stdout: StdioMode::Null, stderr: StdioMode::Null, timeout }
    }

    /// Options of a captured run: both streams piped.
    pub fn piped(timeout: KillTimeout) -> (r: Self)
        ensures
            r.stdout == StdioMode::Piped,
            r.stderr == StdioMode::Piped,
            r.timeout == timeout,
    {
        SpawnOptions { stdout: StdioMode::Piped, stderr: StdioMode::Piped, timeout }
    }
}

/// Enum returned from a captured command run.
#[derive(Debug)]
pub enum Output {
    /// Bytes collected from stdout.
    Data(Vec<u8>),
    /// Returned when the child process has been interrupted (e.g.
    /// the user pressed Ctrl + C) or had to be killed.
    Interrupted,
}

/// Relies on `String::from_utf8`: it succeeds exactly on valid UTF-8
/// input and returns the string those bytes encode; a failure hands
/// back the reported message.
#[verifier::external_body]
fn string_from_utf8(bytes: Vec<u8>) -> (r: Result<String, String>)
    ensures
        r is Ok <==> valid_utf8(bytes@),
        r matches Ok(s) ==> s@ == decode_utf8(bytes@),
{
    match String::from_utf8(bytes) {
        Ok(s) => Ok(s),
        Err(e) => Err(e.to_string()),
    }
}

impl Output {
    /// Reads the terminal result of a captured run: a normal exit
    /// hands out the collected stdout bytes, an interruption or a
    /// forced kill is flagged as such.
    pub fn from_exit(res: ExitResult) -> (o: Output)
        ensures
            match res {
                ExitResult::Output(out) => o == Output::Data(out.stdout),
                ExitResult::Interrupted => o == Output::Interrupted,
                ExitResult::Killed { pid } => o == Output::Interrupted,
            },
    {
        match res {
            ExitResult::Output(out) => Output::Data(out.stdout),
            ExitResult::Interrupted => Output::Interrupted,
            ExitResult::Killed { pid: _ } => Output::Interrupted,
        }
    }

    /// Converts the collected bytes to a `String`. Callers must rule
    /// the interrupted case out first: there are no bytes to hand out
    /// there, and the run of the whole program is over.
    pub fn unwrap_string(self) -> (r: Result<String, Error>)
        requires
            self is Data,
        ensures
            match self {
                Output::Data(bytes) => (r is Ok <==> valid_utf8(bytes@)) && (r matches Ok(s)
                    ==> s@ == decode_utf8(bytes@)) && (r matches Err(e) ==> e is IoError),
                Output::Interrupted => true,
            },
    {
        let bytes = match self {
            Output::Data(b) => b,
            Output::Interrupted => {
                proof {
                    assert(false);
                }
                Vec::new()
            },
        };
        match string_from_utf8(bytes) {
            Ok(s) => Ok(s),
            Err(msg) => Err(Error::IoError(msg)),
        }
    }
}

} // verus!
