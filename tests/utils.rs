use pipe::dialect::ShellDialect;
use pipe::utils::{get_shell, set_var, shell_dialect, shell_or_sh, QuotingError};

#[test]
fn test_set_var_bash() {
    let sh = "/bin/bash";
    let export = true;
    let name = "TEST_VAR";
    let value = "test_value";
    let result = set_var(sh, export, name, value);
    assert_eq!(result, Ok("export TEST_VAR=test_value".to_string()));
    let export = false;
    let result = set_var(sh, export, name, value);
    assert_eq!(result, Ok("TEST_VAR=test_value".to_string()));
}

#[test]
fn test_set_var_fish() {
    let sh = "/usr/bin/fish";
    let export = true;
    let name = "TEST_VAR";
    let value = "test_value";
    let result = set_var(sh, export, name, value);
    assert_eq!(result, Ok("set -gx TEST_VAR test_value".to_string()));
    let export = false;
    let result = set_var(sh, export, name, value);
    assert_eq!(result, Ok("set TEST_VAR test_value".to_string()));
}

#[test]
fn test_set_var_csh() {
    let sh = "/bin/csh";
    let export = true;
    let name = "TEST_VAR";
    let value = "test_value";
    let result = set_var(sh, export, name, value);
    assert_eq!(result, Ok("setenv TEST_VAR test_value".to_string()));
    let export = false;
    let result = set_var(sh, export, name, value);
    assert_eq!(result, Ok("set TEST_VAR test_value".to_string()));
}

#[test]
fn test_get_shell_specified() {
    let (shell, args) = get_shell(Some("/bin/bash".to_string()), None, None);
    assert_eq!(shell, "/bin/bash");
    assert_eq!(args, vec!["-l", "-c"]);
}

#[test]
fn flags_follow_the_basename() {
    let cases: Vec<(&str, Vec<&str>)> = vec![
        ("/bin/sh", vec!["-c"]),
        ("/usr/bin/zsh", vec!["-c"]),
        ("/bin/bash", vec!["-l", "-c"]),
        ("/usr/local/bin/fish", vec!["-l", "-c"]),
        ("/opt/nu", vec!["-l", "-c"]),
        ("/bin/csh", vec!["-d", "-e", "-c"]),
        ("/bin/tcsh", vec!["-d", "-e", "-c"]),
    ];
    for (path, flags) in cases {
        let (shell, args) = get_shell(Some(path.to_string()), None, None);
        assert_eq!(shell, path);
        assert_eq!(args, flags);
    }
}

#[test]
fn unknown_shell_falls_back_to_bin_sh() {
    let (shell, args) = get_shell(Some("/usr/bin/python3".to_string()), None, None);
    assert_eq!(shell, "/bin/sh");
    assert_eq!(args, vec!["-c"]);
    let (shell, args) = get_shell(Some("/".to_string()), None, None);
    assert_eq!(shell, "/bin/sh");
    assert_eq!(args, vec!["-c"]);
    let (shell, args) = get_shell(Some(String::new()), None, None);
    assert_eq!(shell, "/bin/sh");
    assert_eq!(args, vec!["-c"]);
}

#[test]
fn shell_choice_order() {
    let parent = Some("/usr/bin/fish".to_string());
    let env = Some("/bin/zsh".to_string());
    let (shell, _) = get_shell(Some("/bin/csh".to_string()), parent.clone(), env.clone());
    assert_eq!(shell, "/bin/csh");
    let (shell, args) = get_shell(None, parent, env.clone());
    assert_eq!(shell, "/usr/bin/fish");
    assert_eq!(args, vec!["-l", "-c"]);
    let (shell, args) = get_shell(None, None, env);
    assert_eq!(shell, "/bin/zsh");
    assert_eq!(args, vec!["-c"]);
    let (shell, args) = get_shell(None, None, None);
    assert_eq!(shell, "/bin/sh");
    assert_eq!(args, vec!["-c"]);
    assert_eq!(shell_or_sh(None), "/bin/sh");
    assert_eq!(shell_or_sh(Some("/bin/ksh".to_string())), "/bin/ksh");
}

#[test]
fn resolving_twice_gives_the_same_result() {
    for path in ["/bin/bash", "/bin/tcsh", "/usr/bin/unknown", "/"] {
        let first = get_shell(Some(path.to_string()), None, None);
        let second = get_shell(Some(path.to_string()), None, None);
        assert_eq!(first, second);
        assert_eq!(shell_dialect(path), shell_dialect(path));
    }
}

#[test]
fn dialect_from_path() {
    assert_eq!(shell_dialect("/usr/bin/fish"), ShellDialect::Fish);
    assert_eq!(shell_dialect("/bin/tcsh/"), ShellDialect::Tcsh);
    assert_eq!(shell_dialect("/bin/.."), ShellDialect::Unknown);
    assert_eq!(shell_dialect("zsh"), ShellDialect::Zsh);
}

#[test]
fn quoted_value_splits_back_to_itself() {
    let statement = set_var("/bin/bash", false, "V", "it's").unwrap();
    let value = statement.strip_prefix("V=").unwrap();
    assert_ne!(value, "it's");
    assert_eq!(shlex::split(value), Some(vec!["it's".to_string()]));
    let statement = set_var("/bin/sh", true, "V", "hello\n").unwrap();
    let value = statement.strip_prefix("export V=").unwrap();
    assert_eq!(shlex::split(value), Some(vec!["hello\n".to_string()]));
}

#[test]
fn nul_in_value_is_refused() {
    assert_eq!(set_var("/bin/bash", true, "V", "a\0b"), Err(QuotingError::Nul));
    assert_eq!(set_var("/bin/unknown", true, "V", "\0"), Err(QuotingError::Nul));
}

#[test]
fn unknown_and_nu_dialects_give_empty_statement() {
    assert_eq!(set_var("/bin/unknown", true, "V", "x"), Ok(String::new()));
    assert_eq!(set_var("/usr/bin/nu", false, "V", "x"), Ok(String::new()));
}

#[test]
fn empty_value_is_quoted() {
    assert_eq!(set_var("/bin/zsh", false, "V", ""), Ok("V=''".to_string()));
    assert_eq!(set_var("/bin/tcsh", true, "V", ""), Ok("setenv V ''".to_string()));
}
