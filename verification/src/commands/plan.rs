use vstd::prelude::*;
use crate::commands::process::{join_words, joined, texts};

verus! {

/// The text of a plan: the words of the goal, one space between each two.
pub fn plan_command(goal: &Vec<String>) -> (text: String)
    ensures
        text@ == joined(texts(goal@), " "@),
{
    join_words(goal, " ")
}

} // verus!
