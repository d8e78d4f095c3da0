//! What the command executor hands back, and the executor's interface.
use vstd::prelude::*;

use crate::text::{is_space, is_white_space, trim, trimmed};

verus! {

/// The outcome of a command that the executor managed to run.
#[derive(Clone, Debug)]
pub enum CommandResult {
    /// The command's standard output.
    Output(String),
    /// The command failed; its diagnostic text.
    Error(String),
    /// The command succeeded and printed nothing.
    Empty,
    /// The working directory changed to this absolute path.
    DirectoryChanged(String),
}

/// Runs one command line in a given working directory. `Err` carries the
/// reason why the command could not be run at all.
pub trait CommandExecutor {
    fn execute(&self, command: &str, current_dir: &str) -> Result<CommandResult, String>;
}

/// Length of the first word of `s`: the characters before the first white
/// space, or all of them.
pub open spec fn word_end(s: Seq<char>) -> nat
    decreases s.len(),
{
    if s.len() == 0 || is_white_space(s[0]) {
        0
    } else {
        1 + word_end(s.drop_first())
    }
}

/// The first word of `s`.
pub open spec fn first_word(s: Seq<char>) -> Seq<char> {
    s.take(word_end(s) as int)
}

/// The command's trimmed text is `cd` alone or `cd` followed by white space.
pub open spec fn is_cd(c: Seq<char>) -> bool {
    first_word(trimmed(c)) == seq!['c', 'd']
}

/// The first word after `cd` (empty when there is none).
pub open spec fn cd_arg(c: Seq<char>) -> Seq<char> {
    let t = trimmed(c);
    first_word(trimmed(t.skip(word_end(t) as int)))
}

/// How a command line asks to change the working directory.
pub enum CdRequest {
    /// Not a `cd` command: run it as it is.
    NotCd,
    /// `cd` with no argument: go to the home directory.
    Home,
    /// `cd -`: go back to the previous directory.
    Previous,
    /// `cd <path>`: go to this path, relative to the current directory
    /// unless absolute.
    Path(String),
}

/// Index of the end of the first word of `s`.
fn first_word_end(s: &str) -> (r: usize)
    ensures
        r == word_end(s@),
        r <= s@.len(),
{
    let n = s.unicode_len();
    let mut i: usize = 0;
    assert(s@.subrange(0, n as int) =~= s@);
    while i < n && !is_space(s.get_char(i))
        invariant
            n == s@.len(),
            i <= n,
            word_end(s@) == i + word_end(s@.subrange(i as int, n as int)),
        decreases n - i,
    {
        assert(s@.subrange(i as int, n as int).drop_first() =~= s@.subrange(i + 1, n as int));
        i = i + 1;
    }
    i
}

/// Tells a `cd` command (its first word is `cd`) from any other, and what
/// it asks for.
pub fn parse_cd(command: &str) -> (r: CdRequest)
    ensures
        match r {
            CdRequest::NotCd => !is_cd(command@),
            CdRequest::Home => is_cd(command@) && cd_arg(command@).len() == 0,
            CdRequest::Previous => is_cd(command@) && cd_arg(command@) == seq!['-'],
            CdRequest::Path(p) => is_cd(command@) && cd_arg(command@).len() > 0 && cd_arg(
                command@,
            ) != seq!['-'] && p@ == cd_arg(command@),
        },
{
    proof {
        reveal_strlit("cd");
        reveal_strlit("-");
    }
    let t = trim(command);
    let n = t.as_str().unicode_len();
    let e = first_word_end(t.as_str());
    let word = String::from_str(t.as_str().substring_char(0, e));
    assert(word@ =~= first_word(t@));
    let cd = String::from_str("cd");
    let same = word == cd;
    if !same {
        assert(cd@ =~= seq!['c', 'd']);
        return CdRequest::NotCd;
    }
    assert("cd"@ =~= seq!['c', 'd']);
    let rest = trim(t.as_str().substring_char(e, n));
    assert(t@.subrange(e as int, n as int) =~= t@.skip(e as int));
    let e2 = first_word_end(rest.as_str());
    let arg = String::from_str(rest.as_str().substring_char(0, e2));
    assert(arg@ =~= cd_arg(command@));
    if e2 == 0 {
        CdRequest::Home
    } else if arg == String::from_str("-") {
        assert("-"@ =~= seq!['-']);
        CdRequest::Previous
    } else {
        assert("-"@ =~= seq!['-']);
        CdRequest::Path(arg)
    }
}

} // verus!
