//! The prompt shown before the input line.
use vstd::prelude::*;

verus! {

/// `"{user}@{host}({dir}): "`.
pub open spec fn prompt_spec(user: Seq<char>, host: Seq<char>, dir: Seq<char>) -> Seq<char> {
    user + seq!['@'] + host + seq!['('] + dir + seq![')', ':', ' ']
}

/// Formats the prompt `"{user}@{host}({dir}): "`.
pub fn format_prompt(user: &str, host: &str, dir: &str) -> (r: String)
    ensures
        r@ == prompt_spec(user@, host@, dir@),
{
    proof {
        reveal_strlit("@");
        reveal_strlit("(");
        reveal_strlit("): ");
    }
    let mut r = String::from_str(user);
    r.append("@");
    r.append(host);
    r.append("(");
    r.append(dir);
    r.append("): ");
    assert(r@ =~= prompt_spec(user@, host@, dir@));
    r
}

} // verus!
