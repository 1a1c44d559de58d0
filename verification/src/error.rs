//! The failure of a build: what kind of thing went wrong, and a chain of
//! messages from the outermost stage down to the cause.

use vstd::prelude::*;
use crate::text::texts;

verus! {

/// What went wrong, by the party that has to act on it.
#[derive(Clone, Copy, Debug, PartialEq, Eq, Structural)]
pub enum ErrorKind {
    /// The caller broke a precondition of the build.
    Precondition,
    /// A tool or a setting that the build needs is not on this machine.
    MissingDependency,
    /// A tool ran and reported failure.
    Subprocess,
    /// A tool reported success but what it left is not usable.
    Artifact,
    /// A directory or a file could not be listed, read or written.
    Filesystem,
    /// A configuration file does not hold what it must.
    Parse,
    /// The driver of a build answered a request with something else.
    Protocol,
}

/// A failed build.
#[derive(Clone, Debug, PartialEq, Eq)]
pub struct BuildError {
    pub kind: ErrorKind,
    /// The messages, outermost context first, the cause last.
    pub chain: Vec<String>,
}

/// A failure as a value of the model.
pub struct Failure {
    pub kind: ErrorKind,
    pub chain: Seq<Seq<char>>,
}

/// The text between two messages of a rendered chain.
pub open spec fn chain_separator() -> Seq<char> {
    seq![':', ' ']
}

/// The messages of a chain on one line, outermost first.
pub open spec fn rendered(chain: Seq<Seq<char>>) -> Seq<char>
    decreases chain.len(),
{
    if chain.len() == 0 {
        Seq::empty()
    } else if chain.len() == 1 {
        chain[0]
    } else {
        rendered(chain.drop_last()) + chain_separator() + chain.last()
    }
}

impl View for BuildError {
    type V = Failure;

    open spec fn view(&self) -> Failure {
        Failure { kind: self.kind, chain: texts(self.chain@) }
    }
}

impl BuildError {
    /// A failure with its cause and no context yet.
    pub fn new(kind: ErrorKind, cause: String) -> (error: BuildError)
        ensures
            error@ == (Failure { kind, chain: seq![cause@] }),
    {
        let mut chain: Vec<String> = Vec::new();
        chain.push(cause);
        let error = BuildError { kind, chain };
        assert(error@.chain =~= seq![cause@]);
        error
    }

    /// The same failure under one more layer of context, which becomes its
    /// outermost message.
    pub fn context(self, message: String) -> (error: BuildError)
        ensures
            error@ == (Failure { kind: self@.kind, chain: seq![message@] + self@.chain }),
    {
        let BuildError { kind, chain } = self;
        let mut chain = chain;
        let ghost before = chain@;
        chain.insert(0, message);
        let error = BuildError { kind, chain };
        assert(error@.chain =~= seq![message@] + texts(before));
        error
    }

    /// The chain on one line: each message, then `: `, then the next.
    pub fn message(&self) -> (line: String)
        ensures
            line@ == rendered(self@.chain),
    {
        let mut line = String::new();
        let mut i: usize = 0;
        while i < self.chain.len()
            invariant
                i <= self.chain.len(),
                line@ == rendered(texts(self.chain@).take(i as int)),
            decreases self.chain.len() - i,
        {
            let ghost sofar = texts(self.chain@).take(i as int);
            let ghost next = texts(self.chain@).take(i + 1);
            proof {
                assert(next.drop_last() =~= sofar);
                assert(next.last() == self.chain@[i as int]@);
            }
            if i > 0 {
                line.append(": ");
                proof {
                    reveal_strlit(": ");
                    assert(": "@ =~= chain_separator());
                }
            }
            line.append(self.chain[i].as_str());
            i += 1;
        }
        proof {
            assert(texts(self.chain@).take(i as int) =~= texts(self.chain@));
        }
        line
    }
}

} // verus!
