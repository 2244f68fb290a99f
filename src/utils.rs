//! Choosing the shell, resolving how to invoke it, and rendering variable
//! assignments in its syntax.
use vstd::prelude::*;
use crate::dialect::{classify, dialect_of, flags_of, invocation_flags, views_of, ShellDialect};
use crate::foreign::{file_name, path_file_name, shell_quoted, try_quote};

verus! {

/// Why a value could not be turned into a shell assignment.
#[derive(Clone, Copy, Debug, PartialEq, Eq, Structural)]
pub enum QuotingError {
    /// The value holds a nul character, which no shell word can carry.
    Nul,
}

/// The shell run when no known one was found.
pub open spec fn fallback_shell() -> Seq<char> {
    seq!['/', 'b', 'i', 'n', '/', 's', 'h']
}

/// The view of an optional string slice.
pub open spec fn opt_str_view(o: Option<&str>) -> Option<Seq<char>> {
    match o {
        Some(s) => Some(s@),
        None => None,
    }
}

/// The view of an optional string.
pub open spec fn opt_string_view(o: Option<String>) -> Option<Seq<char>> {
    match o {
        Some(s) => Some(s@),
        None => None,
    }
}

/// The dialect of a shell whose basename is `name`, if it has one.
pub open spec fn basename_dialect(name: Option<Seq<char>>) -> ShellDialect {
    match name {
        Some(n) => dialect_of(n),
        None => ShellDialect::Unknown,
    }
}

/// The dialect of the shell at `path`.
pub open spec fn path_dialect(path: Seq<char>) -> ShellDialect {
    basename_dialect(path_file_name(path))
}

/// The program to run for a shell at `path` of dialect `d`: the shell itself,
/// or the fallback shell where the dialect is not known.
pub open spec fn program_for(path: Seq<char>, d: ShellDialect) -> Seq<char> {
    if d == ShellDialect::Unknown {
        fallback_shell()
    } else {
        path
    }
}

/// The shell in use: the one asked for, else the parent process's program,
/// else the one the environment names, else the fallback shell.
pub open spec fn chosen_shell(
    sh: Option<Seq<char>>,
    parent_exe: Option<Seq<char>>,
    env_shell: Option<Seq<char>>,
) -> Seq<char> {
    match sh {
        Some(s) => s,
        None => match parent_exe {
            Some(p) => p,
            None => match env_shell {
                Some(e) => e,
                None => fallback_shell(),
            },
        },
    }
}

/// The statement that assigns `quoted` to `name` in dialect `d`; empty where
/// the dialect has no known syntax for it.
pub open spec fn assignment_text(d: ShellDialect, export: bool, name: Seq<char>, quoted: Seq<char>) -> Seq<char> {
    match d {
        ShellDialect::Sh | ShellDialect::Zsh | ShellDialect::Bash => if export {
            "export "@ + name + "="@ + quoted
        } else {
            name + "="@ + quoted
        },
        ShellDialect::Fish => if export {
            "set -gx "@ + name + " "@ + quoted
        } else {
            "set "@ + name + " "@ + quoted
        },
        ShellDialect::Csh | ShellDialect::Tcsh => if export {
            "setenv "@ + name + " "@ + quoted
        } else {
            "set "@ + name + " "@ + quoted
        },
        _ => Seq::empty(),
    }
}

/// The shell named by the environment, or the fallback shell.
pub fn shell_or_sh(env_shell: Option<String>) -> (r: String)
    ensures
        r@ == match env_shell {
            Some(s) => s@,
            None => fallback_shell(),
        },
{
    match env_shell {
        Some(s) => s,
        None => {
            proof {
                reveal_strlit("/bin/sh");
            }
            let r = String::from_str("/bin/sh");
            assert(r@ =~= fallback_shell());
            r
        },
    }
}

/// The program and flags for a shell at `path` whose basename is `name`.
pub fn resolve(path: String, name: Option<&str>) -> (r: (String, Vec<&'static str>))
    ensures
        r.0@ == program_for(path@, basename_dialect(opt_str_view(name))),
        views_of(r.1@) == flags_of(basename_dialect(opt_str_view(name))),
{
    let d = match name {
        Some(n) => classify(n),
        None => ShellDialect::Unknown,
    };
    let program = if d == ShellDialect::Unknown {
        shell_or_sh(None)
    } else {
        path
    };
    (program, invocation_flags(d))
}

/// The dialect of the shell at `path`, judged by its basename.
pub fn shell_dialect(path: &str) -> (r: ShellDialect)
    ensures
        r == path_dialect(path@),
{
    match file_name(path) {
        Some(n) => classify(n.as_str()),
        None => ShellDialect::Unknown,
    }
}

/// The shell to use and the flags that make it run a one-line command. The
/// shell is `sh` if given, else the parent process's program `parent_exe`,
/// else the environment's `env_shell`, else `/bin/sh`; one whose basename is
/// not known is replaced by `/bin/sh`.
pub fn get_shell(sh: Option<String>, parent_exe: Option<String>, env_shell: Option<String>) -> (r: (
    String,
    Vec<&'static str>,
))
    ensures
        ({
            let path = chosen_shell(opt_string_view(sh), opt_string_view(parent_exe), opt_string_view(env_shell));
            &&& r.0@ == program_for(path, path_dialect(path))
            &&& views_of(r.1@) == flags_of(path_dialect(path))
        }),
{
    let shell = match sh {
        Some(s) => s,
        None => match parent_exe {
            Some(p) => p,
            None => shell_or_sh(env_shell),
        },
    };
    let name = file_name(shell.as_str());
    match name {
        Some(n) => resolve(shell, Some(n.as_str())),
        None => resolve(shell, None),
    }
}

/// The flags and program chosen by basename: `sh` and `zsh` take `-c`; `bash`,
/// `fish` and `nu` take `-l -c`; `csh` and `tcsh` take `-d -e -c`; each of
/// them runs the shell itself. Any other basename, or none, takes `-c` and
/// runs `/bin/sh` instead.
pub proof fn flags_by_basename(path: Seq<char>, name: Option<Seq<char>>)
    ensures
        ({
            let d = basename_dialect(name);
            let posix = name == Some(seq!['s', 'h']) || name == Some(seq!['z', 's', 'h']);
            let login = name == Some(seq!['b', 'a', 's', 'h']) || name == Some(seq!['f', 'i', 's', 'h'])
                || name == Some(seq!['n', 'u']);
            let csh = name == Some(seq!['c', 's', 'h']) || name == Some(seq!['t', 'c', 's', 'h']);
            &&& posix ==> flags_of(d) == seq![seq!['-', 'c']]
            &&& login ==> flags_of(d) == seq![seq!['-', 'l'], seq!['-', 'c']]
            &&& csh ==> flags_of(d) == seq![seq!['-', 'd'], seq!['-', 'e'], seq!['-', 'c']]
            &&& posix || login || csh ==> program_for(path, d) == path
            &&& !(posix || login || csh) ==> flags_of(d) == seq![seq!['-', 'c']] && program_for(path, d)
                == fallback_shell()
        }),
{
}

/// Resolving a shell is a function of the inputs alone: two resolutions of
/// the same choice give the same program and the same flags.
pub proof fn resolution_is_repeatable(
    sh: Option<Seq<char>>,
    parent_exe: Option<Seq<char>>,
    env_shell: Option<Seq<char>>,
    sh2: Option<Seq<char>>,
    parent_exe2: Option<Seq<char>>,
    env_shell2: Option<Seq<char>>,
)
    requires
        sh == sh2,
        parent_exe == parent_exe2,
        env_shell == env_shell2,
    ensures
        ({
            let p = chosen_shell(sh, parent_exe, env_shell);
            let q = chosen_shell(sh2, parent_exe2, env_shell2);
            &&& path_dialect(p) == path_dialect(q)
            &&& program_for(p, path_dialect(p)) == program_for(q, path_dialect(q))
            &&& flags_of(path_dialect(p)) == flags_of(path_dialect(q))
        }),
{
}

/// The statement that assigns the already quoted `quoted` to `name`.
pub fn assignment(d: ShellDialect, export: bool, name: &str, quoted: &str) -> (r: String)
    ensures
        r@ == assignment_text(d, export, name@, quoted@),
{
    match d {
        ShellDialect::Sh | ShellDialect::Zsh | ShellDialect::Bash => {
            let mut s = if export {
                let mut s = String::from_str("export ");
                s.append(name);
                s
            } else {
                String::from_str(name)
            };
            s.append("=");
            s.append(quoted);
            s
        },
        ShellDialect::Fish | ShellDialect::Csh | ShellDialect::Tcsh => {
            let mut s = if d == ShellDialect::Fish {
                if export {
                    String::from_str("set -gx ")
                } else {
                    String::from_str("set ")
                }
            } else {
                if export {
                    String::from_str("setenv ")
                } else {
                    String::from_str("set ")
                }
            };
            s.append(name);
            s.append(" ");
            s.append(quoted);
            s
        },
        _ => String::new(),
    }
}

/// The statement that assigns `value`, shell-quoted, to `name` in the syntax
/// of the shell at `shell`; fails where the value holds a nul character.
pub fn set_var(shell: &str, export: bool, name: &str, value: &str) -> (r: Result<String, QuotingError>)
    ensures
        r is Err <==> value@.contains('\0'),
        r matches Ok(s) ==> s@ == assignment_text(path_dialect(shell@), export, name@, shell_quoted(value@)),
{
    let quoted = match try_quote(value) {
        Ok(q) => q,
        Err(_) => return Err(QuotingError::Nul),
    };
    let d = shell_dialect(shell);
    Ok(assignment(d, export, name, quoted.as_str()))
}

} // verus!
