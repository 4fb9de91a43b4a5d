use steward::cmd::{
    shell, shelled, Cmd, KillTimeout, Output, SpawnOptions, StdioMode, DEFAULT_TIMEOUT_MS,
};
use steward::env::Env;
use steward::fmt::{headline, plain_headline};
use steward::loc::display_relative;
use steward::process::{CapturedOutput, ExitResult};
use steward::{Error, Location};

struct TestLoc(String);

impl Location for TestLoc {
    fn apex() -> Self {
        TestLoc("/home/me/proj".to_string())
    }

    fn as_path(&self) -> String {
        self.0.clone()
    }

    fn display(&self) -> String {
        display_relative(&self.0, &Self::apex().as_path())
    }
}

#[test]
fn shell_invocation() {
    assert_eq!(shell(), "/bin/sh");
    let args = shelled("ls | wc -l");
    assert_eq!(args, vec!["-c".to_string(), "ls | wc -l".to_string()]);
}

#[test]
fn cmd_accessors() {
    let cmd = Cmd {
        exe: "cargo build".to_string(),
        env: Env::one("RUST_LOG".to_string(), "info".to_string()),
        pwd: TestLoc("/home/me/proj/server".to_string()),
        msg: Some("Building a server".to_string()),
    };
    assert_eq!(cmd.exe(), "cargo build");
    assert_eq!(cmd.env().get("RUST_LOG").unwrap(), "info");
    assert_eq!(cmd.pwd().display(), "proj/server");
    assert_eq!(cmd.msg().unwrap(), "Building a server");

    let bare = Cmd {
        exe: "ls".to_string(),
        env: Env::empty(),
        pwd: TestLoc("/home/me/proj".to_string()),
        msg: None,
    };
    assert!(bare.msg().is_none());
}

#[test]
fn default_timeout_without_variable() {
    let (timeout, warned) = KillTimeout::from_var(None);
    assert_eq!(timeout.duration(), DEFAULT_TIMEOUT_MS);
    assert!(!warned);
}

#[test]
fn timeout_variable_in_seconds() {
    let value = "20".to_string();
    let (timeout, warned) = KillTimeout::from_var(Some(&value));
    assert_eq!(timeout.duration(), 20_000);
    assert!(!warned);
}

#[test]
fn malformed_timeout_variable_warns_and_falls_back() {
    let value = "soon".to_string();
    let (timeout, warned) = KillTimeout::from_var(Some(&value));
    assert_eq!(timeout.duration(), DEFAULT_TIMEOUT_MS);
    assert!(warned);
}

#[test]
fn huge_timeout_variable_saturates() {
    let value = "18446744073709551615".to_string();
    let (timeout, warned) = KillTimeout::from_var(Some(&value));
    assert_eq!(timeout.duration(), u64::MAX);
    assert!(!warned);
}

#[test]
fn spawn_option_modes() {
    let run = SpawnOptions::inherited(KillTimeout::new(1000));
    assert_eq!(run.stdout, StdioMode::Inherit);
    assert_eq!(run.stderr, StdioMode::Inherit);
    let silent = SpawnOptions::nulled(KillTimeout::new(1000));
    assert_eq!(silent.stdout, StdioMode::Null);
    assert_eq!(silent.stderr, StdioMode::Null);
    let output = SpawnOptions::piped(KillTimeout::new(1000));
    assert_eq!(output.stdout, StdioMode::Piped);
    assert_eq!(output.stderr, StdioMode::Piped);
    assert_eq!(output.timeout.duration(), 1000);
}

#[test]
fn output_of_normal_exit_keeps_stdout() {
    let res = ExitResult::Output(CapturedOutput {
        code: Some(0),
        stdout: b"hello\n".to_vec(),
        stderr: Vec::new(),
    });
    match Output::from_exit(res) {
        Output::Data(bytes) => assert_eq!(bytes, b"hello\n"),
        Output::Interrupted => panic!("a normal exit must hand its bytes out"),
    }
}

#[test]
fn output_of_interrupted_run_is_flagged() {
    assert!(matches!(Output::from_exit(ExitResult::Interrupted), Output::Interrupted));
    assert!(matches!(
        Output::from_exit(ExitResult::Killed { pid: 5 }),
        Output::Interrupted
    ));
}

#[test]
fn unwrap_string_decodes_utf8() {
    let out = Output::Data("grüß dich".as_bytes().to_vec());
    assert_eq!(out.unwrap_string().unwrap(), "grüß dich");
}

#[test]
fn unwrap_string_rejects_invalid_utf8() {
    let out = Output::Data(vec![0xff, 0xfe, 0x00]);
    assert!(matches!(out.unwrap_string(), Err(Error::IoError(_))));
}

#[test]
fn headline_with_message() {
    let line = headline("cargo build", "proj/server", Some(&"Building".to_string()));
    assert_eq!(line, "> Building: $ cargo build [@ proj/server]");
}

#[test]
fn headline_without_message() {
    let line = headline("cargo build", "proj/server", None);
    assert_eq!(line, "> $ cargo build [@ proj/server]");
}

#[test]
fn plain_headline_text() {
    assert_eq!(plain_headline("Nothing to do. Exiting."), "> Nothing to do. Exiting.");
}

#[test]
fn display_relative_strips_apex_parent() {
    assert_eq!(display_relative("/home/me/proj/server", "/home/me/proj"), "proj/server");
    assert_eq!(display_relative("/home/me/proj", "/home/me/proj"), "proj");
    assert_eq!(display_relative("/home/me", "/home/me/proj"), "");
    assert_eq!(display_relative("/elsewhere/x", "/home/me/proj"), "/elsewhere/x");
    assert_eq!(display_relative("/x", "proj"), "/x");
}
