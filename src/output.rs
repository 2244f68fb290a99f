//! The statements printed after a run: one per variable, each ended by `;`.
use vstd::prelude::*;
use crate::capture::{decimal, decimal_text, CaptureResult};
use crate::cli::Pipe;
use crate::foreign::shell_quoted;
use crate::utils::{assignment_text, path_dialect, set_var, QuotingError};

verus! {

/// The line that assigns `value` to `name` for the shell at `shell`.
pub open spec fn statement_line(shell: Seq<char>, export: bool, name: Seq<char>, value: Seq<char>) -> Seq<char> {
    assignment_text(path_dialect(shell), export, name, shell_quoted(value)) + seq![';']
}

/// The variables to assign, in order, with their values: the standard
/// output, the standard error, then the exit code in decimal if a variable
/// was named for it.
pub open spec fn assigned_vars(pipe: Pipe, result: CaptureResult) -> Seq<(Seq<char>, Seq<char>)> {
    let streams = seq![(pipe.stdout@, result.stdout@), (pipe.stderr@, result.stderr@)];
    match pipe.exit_code {
        Some(name) => streams.push((name@, decimal_text(result.exit_code as int))),
        None => streams,
    }
}

/// The views of a list of pairs of strings.
pub open spec fn pair_views(v: Seq<(String, String)>) -> Seq<(Seq<char>, Seq<char>)> {
    v.map_values(|p: (String, String)| (p.0@, p.1@))
}

/// The variables that a run assigns, with their values.
pub fn assigned(pipe: &Pipe, result: &CaptureResult) -> (r: Vec<(String, String)>)
    ensures
        pair_views(r@) == assigned_vars(*pipe, *result),
{
    let mut r: Vec<(String, String)> = Vec::new();
    r.push((String::from_str(pipe.stdout.as_str()), String::from_str(result.stdout.as_str())));
    r.push((String::from_str(pipe.stderr.as_str()), String::from_str(result.stderr.as_str())));
    match &pipe.exit_code {
        Some(name) => {
            r.push((String::from_str(name.as_str()), decimal(result.exit_code)));
        },
        None => {},
    }
    assert(pair_views(r@) =~= assigned_vars(*pipe, *result));
    r
}

/// The statements for `vars`, in order, up to the first value that cannot
/// be quoted; that value's error comes second, if there is one.
pub fn statements(shell: &str, export: bool, vars: &Vec<(String, String)>) -> (r: (Vec<String>, Option<QuotingError>))
    ensures
        r.0.len() <= vars.len(),
        forall|i: int|
            0 <= i < r.0.len() ==> !(#[trigger] vars@[i]).1@.contains('\0') && r.0@[i]@ == statement_line(
                shell@,
                export,
                vars@[i].0@,
                vars@[i].1@,
            ),
        r.1 is None ==> r.0.len() == vars.len(),
        r.1 is Some ==> r.0.len() < vars.len() && vars@[r.0.len() as int].1@.contains('\0'),
{
    let mut lines: Vec<String> = Vec::new();
    let mut i: usize = 0;
    proof {
        reveal_strlit(";");
        assert(";"@ =~= seq![';']);
    }
    while i < vars.len()
        invariant
            i <= vars.len(),
            lines.len() == i,
            ";"@ == seq![';'],
            forall|j: int|
                0 <= j < i ==> !(#[trigger] vars@[j]).1@.contains('\0') && lines@[j]@ == statement_line(
                    shell@,
                    export,
                    vars@[j].0@,
                    vars@[j].1@,
                ),
        decreases vars.len() - i,
    {
        let (name, value) = &vars[i];
        match set_var(shell, export, name.as_str(), value.as_str()) {
            Ok(s) => {
                lines.push(s.concat(";"));
            },
            Err(e) => {
                return (lines, Some(e));
            },
        }
        i = i + 1;
    }
    (lines, None)
}

} // verus!
