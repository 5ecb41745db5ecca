//! Command lines of configured actions: shell-style tokenization and the
//! non-emptiness invariant.

use vstd::prelude::*;

verus! {

/// Characters that the shell tokenizer treats as word delimiters.
pub open spec fn shell_delimiter(c: char) -> bool {
    c == ' ' || c == '\t' || c == '\n'
}

/// A string that tokenizes to no words at all: empty, or made of word
/// delimiters only.
pub open spec fn shell_blank(s: Seq<char>) -> bool {
    forall|i: int| 0 <= i < s.len() ==> shell_delimiter(#[trigger] s[i])
}

/// The words that shell-style tokenization yields for a string, or `None`
/// when the string cannot be tokenized (an unmatched quote).
pub uninterp spec fn shell_split(s: Seq<char>) -> Option<Seq<Seq<char>>>;

/// Relies on shell_words::split: POSIX-shell word splitting with quote
/// removal; its result depends on the string alone, and a string made of
/// delimiters only (in particular an empty one) yields no words.
#[verifier::external_body]
fn split_words(s: &str) -> (r: Option<Vec<String>>)
    ensures
        (r is Some) <==> shell_split(s@) is Some,
        r matches Some(v) ==> v.deep_view() == shell_split(s@)->Some_0,
        r is None ==> !shell_blank(s@),
        r matches Some(v) ==> (shell_blank(s@) ==> v@.len() == 0),
{
    match shell_words::split(s) {
        Ok(words) => Some(words),
        Err(_) => None,
    }
}

/// Why an action string was rejected.
#[derive(Debug, Clone, Copy, PartialEq, Eq, Structural)]
pub enum ActionParseError {
    /// The string cannot be tokenized (an unmatched quote).
    Unparsable,
    /// The string tokenizes to no words at all.
    Empty,
}

/// An ordered, non-empty command line: a program followed by its
/// arguments, derived by shell-style tokenization of one configuration
/// string.
#[derive(Debug, Clone, PartialEq, Eq)]
pub struct ActionSpec {
    words: Vec<String>,
}

impl View for ActionSpec {
    type V = Seq<Seq<char>>;

    closed spec fn view(&self) -> Seq<Seq<char>> {
        self.words.deep_view()
    }
}

impl ActionSpec {
    /// A command line is well formed when it holds at least a program.
    pub open spec fn wf(&self) -> bool {
        self@.len() > 0
    }

    /// Tokenizes an action string. A string that is empty or all
    /// whitespace is rejected, as is one with an unmatched quote; any
    /// other string yields its words, quoting respected.
    pub fn parse(s: &str) -> (r: Result<ActionSpec, ActionParseError>)
        ensures
            r matches Ok(a) ==> a.wf() && shell_split(s@) == Some(a@),
            (r is Ok) <==> (shell_split(s@) matches Some(w) && w.len() > 0),
            (r == Err::<ActionSpec, ActionParseError>(ActionParseError::Unparsable))
                <==> shell_split(s@) is None,
            (r == Err::<ActionSpec, ActionParseError>(ActionParseError::Empty))
                <==> (shell_split(s@) matches Some(w) && w.len() == 0),
            shell_blank(s@) ==> r == Err::<ActionSpec, ActionParseError>(
                ActionParseError::Empty,
            ),
    {
        match split_words(s) {
            None => Err(ActionParseError::Unparsable),
            Some(words) => {
                if words.len() == 0 {
                    Err(ActionParseError::Empty)
                } else {
                    Ok(ActionSpec { words })
                }
            },
        }
    }

    /// The tokenized command line, program first.
    pub fn words(&self) -> (r: &Vec<String>)
        ensures
            r.deep_view() == self@,
    {
        &self.words
    }

    /// The command line split for launching: the program, then the
    /// arguments in order.
    pub fn launch_parts(&self) -> (r: (String, Vec<String>))
        requires
            self.wf(),
        ensures
            r.0@ == self@[0],
            r.1.deep_view() == self@.skip(1),
    {
        let program = self.words[0].clone();
        let mut args: Vec<String> = Vec::new();
        let n = self.words.len();
        let mut i: usize = 1;
        while i < n
            invariant
                1 <= i <= n,
                n == self.words@.len(),
                args@.len() == i - 1,
                forall|j: int| 0 <= j < i - 1 ==> (#[trigger] args@[j])@ == self@[j + 1],
            decreases n - i,
        {
            args.push(self.words[i].clone());
            i = i + 1;
        }
        proof {
            assert(args.deep_view() =~= self@.skip(1)) by {
                assert(forall|j: int|
                    0 <= j < args@.len() ==> args.deep_view()[j] == (#[trigger] args@[j])@);
            }
        }
        (program, args)
    }
}

} // verus!
