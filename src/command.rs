//! Turning the command given on the command line into the program to run and
//! its arguments.
use vstd::prelude::*;
use crate::dialect::views_of;
use crate::foreign::{shell_words, split, string_views};

verus! {

/// The words, separated by single spaces.
pub open spec fn joined_words(words: Seq<Seq<char>>) -> Seq<char>
    decreases words.len(),
{
    if words.len() == 0 {
        Seq::empty()
    } else if words.len() == 1 {
        words[0]
    } else {
        joined_words(words.drop_last()) + seq![' '] + words.last()
    }
}

/// The words, separated by single spaces.
pub fn join_words(words: &Vec<String>) -> (r: String)
    ensures
        r@ == joined_words(string_views(words@)),
{
    let mut r = String::new();
    let mut i: usize = 0;
    proof {
        reveal_strlit(" ");
        assert(" "@ =~= seq![' ']);
    }
    while i < words.len()
        invariant
            i <= words.len(),
            r@ == joined_words(string_views(words@.subrange(0, i as int))),
            " "@ == seq![' '],
        decreases words.len() - i,
    {
        let ghost before = words@.subrange(0, i as int);
        let ghost now = words@.subrange(0, i + 1);
        assert(string_views(now).drop_last() =~= string_views(before));
        if i > 0 {
            r.append(" ");
        }
        r.append(words[i].as_str());
        proof {
            if i == 0 {
                assert(r@ =~= joined_words(string_views(now)));
            } else {
                assert(r@ =~= joined_words(string_views(now)));
            }
        }
        i = i + 1;
    }
    assert(words@.subrange(0, words.len() as int) =~= words@);
    r
}

/// The words of the command: its parts joined by spaces, then split again by
/// shell rules; `None` where the joined text cannot be split.
pub fn tokenize(command: &Vec<String>) -> (r: Option<Vec<String>>)
    ensures
        r matches Some(w) ==> shell_words(joined_words(string_views(command@))) == Some(string_views(w@)),
        r is None ==> shell_words(joined_words(string_views(command@))) is None,
{
    let text = join_words(command);
    split(text.as_str())
}

/// A program and the arguments to start it with.
#[derive(Debug)]
pub struct Invocation {
    /// The program to start.
    pub program: String,
    /// Its arguments, in order.
    pub args: Vec<String>,
}

/// How to start the command `words`: through the shell, which gets its flags
/// and the words joined into one line, or directly, as the first word with
/// the rest as its arguments. `None` where there is no word to run directly.
pub fn build_invocation(sh: bool, shell: &str, flags: &Vec<&str>, words: &Vec<String>) -> (r: Option<Invocation>)
    ensures
        sh ==> (r matches Some(inv) && inv.program@ == shell@
            && string_views(inv.args@) == views_of(flags@).push(joined_words(string_views(words@)))),
        !sh && words.len() == 0 ==> r is None,
        !sh && words.len() > 0 ==> (r matches Some(inv) && inv.program@ == words@[0]@
            && string_views(inv.args@) == string_views(words@.subrange(1, words.len() as int))),
{
    if sh {
        let mut args: Vec<String> = Vec::new();
        let mut i: usize = 0;
        while i < flags.len()
            invariant
                i <= flags.len(),
                string_views(args@) == views_of(flags@.subrange(0, i as int)),
            decreases flags.len() - i,
        {
            args.push(String::from_str(flags[i]));
            assert(views_of(flags@.subrange(0, i + 1)) =~= views_of(flags@.subrange(0, i as int)).push(flags@[i as int]@));
            assert(string_views(args@) =~= views_of(flags@.subrange(0, i + 1)));
            i = i + 1;
        }
        assert(flags@.subrange(0, flags.len() as int) =~= flags@);
        let line = join_words(words);
        args.push(line);
        assert(string_views(args@) =~= views_of(flags@).push(joined_words(string_views(words@))));
        Some(Invocation { program: String::from_str(shell), args })
    } else if words.len() == 0 {
        None
    } else {
        let mut args: Vec<String> = Vec::new();
        let mut i: usize = 1;
        while i < words.len()
            invariant
                1 <= i <= words.len(),
                string_views(args@) == string_views(words@.subrange(1, i as int)),
            decreases words.len() - i,
        {
            args.push(String::from_str(words[i].as_str()));
            assert(string_views(words@.subrange(1, i + 1)) =~= string_views(words@.subrange(1, i as int)).push(words@[i as int]@));
            assert(string_views(args@) =~= string_views(words@.subrange(1, i + 1)));
            i = i + 1;
        }
        Some(Invocation { program: String::from_str(words[0].as_str()), args })
    }
}

} // verus!
