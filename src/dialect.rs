//! Shell dialects, recognised by the final component of a shell's path.
use vstd::prelude::*;

verus! {

/// The shells whose syntax and invocation flags are known, and a fallback.
#[derive(Clone, Copy, Debug, PartialEq, Eq, Structural)]
pub enum ShellDialect {
    Sh,
    Zsh,
    Bash,
    Fish,
    Nu,
    Csh,
    Tcsh,
    Unknown,
}

/// The dialect named by a shell's basename.
pub open spec fn dialect_of(name: Seq<char>) -> ShellDialect {
    if name == seq!['s', 'h'] {
        ShellDialect::Sh
    } else if name == seq!['z', 's', 'h'] {
        ShellDialect::Zsh
    } else if name == seq!['b', 'a', 's', 'h'] {
        ShellDialect::Bash
    } else if name == seq!['f', 'i', 's', 'h'] {
        ShellDialect::Fish
    } else if name == seq!['n', 'u'] {
        ShellDialect::Nu
    } else if name == seq!['c', 's', 'h'] {
        ShellDialect::Csh
    } else if name == seq!['t', 'c', 's', 'h'] {
        ShellDialect::Tcsh
    } else {
        ShellDialect::Unknown
    }
}

/// The flags that make the shell run the one-line command that follows them.
pub open spec fn flags_of(d: ShellDialect) -> Seq<Seq<char>> {
    match d {
        ShellDialect::Bash | ShellDialect::Fish | ShellDialect::Nu => seq![seq!['-', 'l'], seq!['-', 'c']],
        ShellDialect::Csh | ShellDialect::Tcsh => seq![seq!['-', 'd'], seq!['-', 'e'], seq!['-', 'c']],
        _ => seq![seq!['-', 'c']],
    }
}

/// The views of a list of string slices.
pub open spec fn views_of(v: Seq<&str>) -> Seq<Seq<char>> {
    v.map_values(|s: &str| s@)
}

/// Whether two string slices hold the same characters.
pub fn same_text(a: &str, b: &str) -> (r: bool)
    ensures
        r == (a@ == b@),
{
    let n = a.unicode_len();
    if n != b.unicode_len() {
        return false;
    }
    let mut i: usize = 0;
    while i < n
        invariant
            n == a@.len(),
            n == b@.len(),
            i <= n,
            a@.subrange(0, i as int) == b@.subrange(0, i as int),
        decreases n - i,
    {
        if a.get_char(i) != b.get_char(i) {
            assert(a@[i as int] != b@[i as int]);
            return false;
        }
        assert(a@.subrange(0, i + 1) =~= a@.subrange(0, i as int).push(a@[i as int]));
        assert(b@.subrange(0, i + 1) =~= b@.subrange(0, i as int).push(b@[i as int]));
        i = i + 1;
    }
    assert(a@ =~= a@.subrange(0, n as int));
    assert(b@ =~= b@.subrange(0, n as int));
    true
}

/// Classifies a shell by its basename.
pub fn classify(name: &str) -> (r: ShellDialect)
    ensures
        r == dialect_of(name@),
{
    proof {
        reveal_strlit("sh");
        reveal_strlit("zsh");
        reveal_strlit("bash");
        reveal_strlit("fish");
        reveal_strlit("nu");
        reveal_strlit("csh");
        reveal_strlit("tcsh");
        assert("sh"@ =~= seq!['s', 'h']);
        assert("zsh"@ =~= seq!['z', 's', 'h']);
        assert("bash"@ =~= seq!['b', 'a', 's', 'h']);
        assert("fish"@ =~= seq!['f', 'i', 's', 'h']);
        assert("nu"@ =~= seq!['n', 'u']);
        assert("csh"@ =~= seq!['c', 's', 'h']);
        assert("tcsh"@ =~= seq!['t', 'c', 's', 'h']);
    }
    if same_text(name, "sh") {
        ShellDialect::Sh
    } else if same_text(name, "zsh") {
        ShellDialect::Zsh
    } else if same_text(name, "bash") {
        ShellDialect::Bash
    } else if same_text(name, "fish") {
        ShellDialect::Fish
    } else if same_text(name, "nu") {
        ShellDialect::Nu
    } else if same_text(name, "csh") {
        ShellDialect::Csh
    } else if same_text(name, "tcsh") {
        ShellDialect::Tcsh
    } else {
        ShellDialect::Unknown
    }
}

/// The invocation flags of a dialect.
pub fn invocation_flags(d: ShellDialect) -> (r: Vec<&'static str>)
    ensures
        views_of(r@) == flags_of(d),
{
    proof {
        reveal_strlit("-c");
        reveal_strlit("-l");
        reveal_strlit("-d");
        reveal_strlit("-e");
        assert("-c"@ =~= seq!['-', 'c']);
        assert("-l"@ =~= seq!['-', 'l']);
        assert("-d"@ =~= seq!['-', 'd']);
        assert("-e"@ =~= seq!['-', 'e']);
    }
    let r = match d {
        ShellDialect::Bash | ShellDialect::Fish | ShellDialect::Nu => vec!["-l", "-c"],
        ShellDialect::Csh | ShellDialect::Tcsh => vec!["-d", "-e", "-c"],
        _ => vec!["-c"],
    };
    assert(views_of(r@) =~= flags_of(d));
    r
}

} // verus!
