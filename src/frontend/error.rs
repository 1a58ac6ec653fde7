use vstd::prelude::*;

use crate::text::concat;

verus! {

#[derive(Clone, Copy, Debug, PartialEq, Eq, Structural)]
pub enum ErrorKind {
    Unknown,
    Syntax,
}

/// An error of the front end: its kind and a message.
#[derive(Clone, Debug)]
pub struct Error {
    pub kind: ErrorKind,
    pub message: String,
}

/// The words that open the description of an error of kind `k`.
pub open spec fn kind_text(k: ErrorKind) -> Seq<char> {
    match k {
        ErrorKind::Unknown => "Unknown error!"@,
        ErrorKind::Syntax => "Syntax error!"@,
    }
}

impl Error {
    /// The kind's words, a space, then the message.
    pub fn description(&self) -> (r: String)
        ensures
            r@ == kind_text(self.kind) + " "@ + self.message@,
    {
        let kind = match self.kind {
            ErrorKind::Unknown => "Unknown error! ",
            ErrorKind::Syntax => "Syntax error! ",
        };
        proof {
            reveal_strlit("Unknown error! ");
            reveal_strlit("Unknown error!");
            reveal_strlit("Syntax error! ");
            reveal_strlit("Syntax error!");
            reveal_strlit(" ");
        }
        assert(kind@ =~= kind_text(self.kind) + " "@);
        concat(kind, self.message.as_str())
    }
}

} // verus!
