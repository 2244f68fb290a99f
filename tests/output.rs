use pipe::capture::CaptureResult;
use pipe::cli::Pipe;
use pipe::output::{assigned, statements};
use pipe::utils::QuotingError;

fn options(exit_code: Option<&str>) -> Pipe {
    Pipe {
        stdout: "OUT".to_string(),
        stderr: "ERR".to_string(),
        exit_code: exit_code.map(|s| s.to_string()),
        export: false,
        capture: true,
        capture_out: true,
        capture_err: true,
        sh: false,
        shell: None,
        command: vec!["cmd".to_string()],
    }
}

fn unquote(statement: &str, prefix: &str) -> Option<Vec<String>> {
    let body = statement.strip_prefix(prefix)?.strip_suffix(';')?;
    shlex::split(body)
}

#[test]
fn two_streams_give_two_statements() {
    let result = CaptureResult { stdout: "hello\n".to_string(), stderr: "world\n".to_string(), exit_code: 0 };
    let vars = assigned(&options(None), &result);
    assert_eq!(vars.len(), 2);
    let (lines, failed) = statements("/bin/bash", false, &vars);
    assert_eq!(failed, None);
    assert_eq!(lines.len(), 2);
    assert_eq!(unquote(&lines[0], "OUT="), Some(vec!["hello\n".to_string()]));
    assert_eq!(unquote(&lines[1], "ERR="), Some(vec!["world\n".to_string()]));
}

#[test]
fn exit_code_gets_a_third_statement() {
    let result = CaptureResult { stdout: "a".to_string(), stderr: String::new(), exit_code: 42 };
    let vars = assigned(&options(Some("CODE")), &result);
    assert_eq!(vars[2], ("CODE".to_string(), "42".to_string()));
    let (lines, failed) = statements("/usr/bin/fish", true, &vars);
    assert_eq!(failed, None);
    assert_eq!(
        lines,
        vec!["set -gx OUT a;".to_string(), "set -gx ERR '';".to_string(), "set -gx CODE 42;".to_string()]
    );
}

#[test]
fn unquotable_value_stops_the_output() {
    let result = CaptureResult { stdout: "fine".to_string(), stderr: "bad\0".to_string(), exit_code: 1 };
    let vars = assigned(&options(Some("CODE")), &result);
    let (lines, failed) = statements("/bin/sh", false, &vars);
    assert_eq!(lines, vec!["OUT=fine;".to_string()]);
    assert_eq!(failed, Some(QuotingError::Nul));
}
