//! What a command answers: a message on success, a reason on failure.

use vstd::prelude::*;
use vstd::string::StringExecFns;

verus! {

/// The answer to a command.
pub type Reply = Result<String, String>;

/// A result that holds text either way, with the text as characters.
pub open spec fn text_view(result: Result<String, String>) -> Result<Seq<char>, Seq<char>> {
    match result {
        Ok(text) => Ok(text@),
        Err(text) => Err(text@),
    }
}

/// `first` followed by `second`.
pub fn join(first: &str, second: &str) -> (joined: String)
    ensures
        joined@ == first@ + second@,
{
    let mut joined = first.to_owned();
    joined.append(second);
    joined
}

/// `first`, `second` and `third` in a row.
pub fn join3(first: &str, second: &str, third: &str) -> (joined: String)
    ensures
        joined@ == first@ + second@ + third@,
{
    let mut joined = join(first, second);
    joined.append(third);
    joined
}

} // verus!
