//! The format in which the answer is asked for.

use vstd::prelude::*;
use vstd::string::StringExecFns;

verus! {

/// The format of the response body.
#[derive(Clone, Copy, Debug, PartialEq, Eq)]
pub enum Format {
    CSV,
}

impl Format {
    /// The name of the format as the request path spells it.
    pub open spec fn text(self) -> Seq<char> {
        seq!['c', 's', 'v']
    }

    /// The name of the format as the request path spells it: `csv`.
    pub fn to_string(&self) -> (text: String)
        ensures
            text@ == self.text(),
    {
        proof {
            reveal_strlit("csv");
        }
        let text = String::from_str("csv");
        assert(text@ =~= self.text());
        text
    }
}

} // verus!
