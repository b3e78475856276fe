use vstd::prelude::*;

verus! {

/// A line as it stands in a log: the time in square brackets, a space, and
/// what is recorded.
pub open spec fn entry_text(time: Seq<char>, line: Seq<char>) -> Seq<char> {
    "["@ + time + "] "@ + line
}

/// A line as it stands in a log.
pub fn entry(time: &str, line: &str) -> (text: String)
    ensures
        text@ == entry_text(time@, line@),
{
    let mut text = "[".to_owned();
    text.append(time);
    text.append("] ");
    text.append(line);
    text
}

} // verus!
