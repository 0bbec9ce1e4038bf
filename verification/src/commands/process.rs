use vstd::prelude::*;
use vstd::string::*;

verus! {

/// A program to run, with its arguments.
#[derive(Debug)]
pub struct Invocation {
    pub program: String,
    pub args: Vec<String>,
}

/// The texts of a sequence of strings.
pub open spec fn texts(words: Seq<String>) -> Seq<Seq<char>> {
    words.map_values(|word: String| word@)
}

impl Invocation {
    /// The command line: the program's name, then its arguments.
    pub open spec fn line(&self) -> Seq<Seq<char>> {
        seq![self.program@] + texts(self.args@)
    }

    /// The invocation of `program` without arguments.
    pub fn new(program: &str) -> (invocation: Self)
        ensures
            invocation.line() == seq![program@],
    {
        let invocation = Invocation { program: String::from_str(program), args: Vec::new() };
        assert(invocation.line() =~= seq![program@]);
        invocation
    }

    /// The same invocation with one more argument.
    pub fn arg(self, arg: &str) -> (invocation: Self)
        ensures
            invocation.line() == self.line().push(arg@),
    {
        let mut args = self.args;
        args.push(String::from_str(arg));
        let invocation = Invocation { program: self.program, args };
        assert(invocation.line() =~= self.line().push(arg@));
        invocation
    }
}

/// `words` with `separator` between each two of them.
pub open spec fn joined(words: Seq<Seq<char>>, separator: Seq<char>) -> Seq<char>
    decreases words.len(),
{
    if words.len() == 0 {
        Seq::empty()
    } else if words.len() == 1 {
        words[0]
    } else {
        joined(words.drop_last(), separator) + separator + words.last()
    }
}

/// Joins `words` with `separator` between each two of them.
pub fn join_words(words: &Vec<String>, separator: &str) -> (text: String)
    ensures
        text@ == joined(texts(words@), separator@),
{
    let mut text = String::new();
    let mut i: usize = 0;
    while i < words.len()
        invariant
            i <= words.len(),
            text@ == joined(texts(words@.take(i as int)), separator@),
        decreases words.len() - i,
    {
        proof {
            let before = texts(words@.take(i as int));
            let after = texts(words@.take(i + 1));
            assert(after.drop_last() =~= before);
            assert(after.last() == words@[i as int]@);
        }
        if i > 0 {
            text.append(separator);
        }
        text.append(words[i].as_str());
        i += 1;
        proof {
            let after = texts(words@.take(i as int));
            if i == 1 {
                assert(text@ =~= after[0]);
            }
        }
    }
    assert(words@.take(words.len() as int) =~= words@);
    text
}

/// Whether `pattern` occurs in `text` as a run of consecutive characters.
pub open spec fn occurs_in(pattern: Seq<char>, text: Seq<char>) -> bool {
    exists|at: int|
        0 <= at && at + pattern.len() <= text.len() && #[trigger] text.subrange(
            at,
            at + pattern.len(),
        ) == pattern
}

/// Searches `text` for `pattern` with `str::contains` of the standard
/// library. Trusted: the answer is whether the pattern occurs in the text.
#[verifier::external_body]
pub(crate) fn contains(text: &str, pattern: &str) -> (found: bool)
    ensures
        found == occurs_in(pattern@, text@),
{
    text.contains(pattern)
}

} // verus!
