//! What is kept of a child's output streams: each stream's lines in the order
//! read, and the exit code.
use vstd::prelude::*;

verus! {

/// The captured output of one child process.
#[derive(Debug)]
pub struct CaptureResult {
    /// Every line read from the standard output, in order.
    pub stdout: String,
    /// Every line read from the standard error, in order.
    pub stderr: String,
    /// The exit code; 1 where the child ended without one.
    pub exit_code: i32,
}

/// The lines, one after another.
pub open spec fn concat_lines(lines: Seq<Seq<char>>) -> Seq<char>
    decreases lines.len(),
{
    if lines.len() == 0 {
        Seq::empty()
    } else {
        concat_lines(lines.drop_last()) + lines.last()
    }
}

/// Skipping the empty lines leaves the concatenation of a stream unchanged.
pub proof fn skipping_empty_lines_keeps_text(lines: Seq<Seq<char>>)
    ensures
        concat_lines(lines.filter(|l: Seq<char>| l.len() > 0)) == concat_lines(lines),
    decreases lines.len(),
{
    let nonempty = |l: Seq<char>| l.len() > 0;
    if lines.len() > 0 {
        let init = lines.drop_last();
        skipping_empty_lines_keeps_text(init);
        reveal(Seq::filter);
        if lines.last().len() > 0 {
            assert(init.filter(nonempty).push(lines.last()).drop_last() =~= init.filter(nonempty));
        } else {
            assert(concat_lines(init) + lines.last() =~= concat_lines(init));
        }
    } else {
        reveal(Seq::filter);
    }
}

/// Whether a line read from a stream is shown on the terminal.
pub fn echo_line(echo: bool, line: &str) -> (r: bool)
    ensures
        r == (echo && line@.len() > 0),
{
    echo && line.unicode_len() > 0
}

/// Adds one line read from a stream to what was kept of it; an empty line
/// adds nothing.
pub fn accumulate(acc: &mut String, line: &str)
    ensures
        final(acc)@ == old(acc)@ + line@,
{
    if line.unicode_len() > 0 {
        acc.append(line);
    } else {
        assert(old(acc)@ + line@ =~= old(acc)@);
    }
}

/// What has been kept of one stream: the lines received so far, in order,
/// and their text one after another.
pub struct StreamLog {
    text: String,
    received: Ghost<Seq<Seq<char>>>,
}

impl StreamLog {
    #[verifier::type_invariant]
    spec fn text_is_lines(self) -> bool {
        self.text@ == concat_lines(self.received@)
    }

    /// The lines received so far, in order.
    pub closed spec fn lines(self) -> Seq<Seq<char>> {
        self.received@
    }

    /// A log that has received nothing.
    pub fn new() -> (r: Self)
        ensures
            r.lines() == Seq::<Seq<char>>::empty(),
    {
        StreamLog { text: String::new(), received: Ghost(Seq::empty()) }
    }

    /// The log after it receives one more line read from the stream.
    pub fn push_line(self, line: &str) -> (r: Self)
        ensures
            r.lines() == self.lines().push(line@),
    {
        proof {
            use_type_invariant(&self);
        }
        let StreamLog { mut text, received } = self;
        accumulate(&mut text, line);
        let ghost lines = received@.push(line@);
        proof {
            assert(lines.drop_last() =~= received@);
        }
        StreamLog { text, received: Ghost(lines) }
    }

    /// The whole text of the stream: every line received, in order.
    pub fn into_text(self) -> (r: String)
        ensures
            r@ == concat_lines(self.lines()),
    {
        proof {
            use_type_invariant(&self);
        }
        self.text
    }
}

/// The exit code of a child: its own, or 1 where it ended without one (as
/// when a signal stopped it).
pub fn exit_code(code: Option<i32>) -> (r: i32)
    ensures
        r == match code {
            Some(c) => c,
            None => 1,
        },
{
    match code {
        Some(c) => c,
        None => 1,
    }
}

/// The character of a decimal digit.
pub open spec fn digit_char(d: nat) -> char {
    if d == 0 { '0' }
    else if d == 1 { '1' }
    else if d == 2 { '2' }
    else if d == 3 { '3' }
    else if d == 4 { '4' }
    else if d == 5 { '5' }
    else if d == 6 { '6' }
    else if d == 7 { '7' }
    else if d == 8 { '8' }
    else { '9' }
}

/// The decimal digits of `n`, without leading zeros.
pub open spec fn digits_text(n: nat) -> Seq<char>
    decreases n,
{
    if n < 10 {
        seq![digit_char(n)]
    } else {
        digits_text(n / 10).push(digit_char(n % 10))
    }
}

/// `n` written in decimal, with a minus sign where it is negative.
pub open spec fn decimal_text(n: int) -> Seq<char> {
    if n < 0 {
        seq!['-'] + digits_text((-n) as nat)
    } else {
        digits_text(n as nat)
    }
}

fn digit_str(d: u64) -> (r: &'static str)
    requires
        d < 10,
    ensures
        r@ == seq![digit_char(d as nat)],
{
    proof {
        reveal_strlit("0");
        reveal_strlit("1");
        reveal_strlit("2");
        reveal_strlit("3");
        reveal_strlit("4");
        reveal_strlit("5");
        reveal_strlit("6");
        reveal_strlit("7");
        reveal_strlit("8");
        reveal_strlit("9");
    }
    let r = if d == 0 { "0" }
    else if d == 1 { "1" }
    else if d == 2 { "2" }
    else if d == 3 { "3" }
    else if d == 4 { "4" }
    else if d == 5 { "5" }
    else if d == 6 { "6" }
    else if d == 7 { "7" }
    else if d == 8 { "8" }
    else { "9" };
    assert(r@ =~= seq![digit_char(d as nat)]);
    r
}

/// `n` written in decimal.
pub fn decimal(n: i32) -> (r: String)
    ensures
        r@ == decimal_text(n as int),
{
    let wide: i64 = n as i64;
    let start: u64 = if wide < 0 { (0 - wide) as u64 } else { wide as u64 };
    let mut m: u64 = start / 10;
    let mut s = String::from_str(digit_str(start % 10));
    while m > 0
        invariant
            m > 0 ==> digits_text(start as nat) == digits_text(m as nat) + s@,
            m == 0 ==> digits_text(start as nat) == s@,
        decreases m,
    {
        let d = digit_str(m % 10);
        let ghost before = s@;
        s = String::from_str(d).concat(s.as_str());
        proof {
            if m >= 10 {
                assert(digits_text(m as nat) == digits_text((m / 10) as nat).push(digit_char((m % 10) as nat)));
                assert(digits_text(m as nat) + before =~= digits_text((m / 10) as nat) + s@);
            } else {
                assert(digits_text(m as nat) + before =~= s@);
            }
        }
        m = m / 10;
    }
    if wide < 0 {
        let r = String::from_str("-").concat(s.as_str());
        proof {
            reveal_strlit("-");
        }
        assert(r@ =~= decimal_text(n as int));
        r
    } else {
        s
    }
}

} // verus!
