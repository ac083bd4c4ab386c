//! The optional flags of a query.

use crate::text::{join_strings, joined, texts};
use vstd::prelude::*;
use vstd::string::StringExecFns;

verus! {

/// One flag of the query string: a key and its value.
#[derive(Clone, Copy, Debug, Eq, PartialEq)]
pub struct Opt<'a> {
    pub k: &'a str,
    pub v: &'a str,
}

/// The flags, in the order the caller gave them.
pub type OptSet<'a> = Vec<Opt<'a>>;

/// The list of flags.
#[derive(Clone, Debug, PartialEq)]
pub struct Optionals<'a> {
    pub opt_values: OptSet<'a>,
}

impl<'a> Opt<'a> {
    /// The key, an equals sign, the value.
    pub open spec fn text(self) -> Seq<char> {
        self.k@ + seq!['='] + self.v@
    }

    /// The flag as it stands in the query string, such as `source=mix`.
    pub fn to_string(&self) -> (text: String)
        ensures
            text@ == self.text(),
    {
        proof {
            reveal_strlit("=");
        }
        let mut text = String::from_str(self.k);
        text.append("=");
        text.append(self.v);
        assert(text@ =~= self.text());
        text
    }
}

impl<'a> Optionals<'a> {
    /// The flags as they stand in the query string, in order.
    pub open spec fn parts(self) -> Seq<Seq<char>> {
        Seq::new(self.opt_values@.len(), |i: int| self.opt_values@[i].text())
    }

    /// The flags, joined by ampersands.
    pub open spec fn text(self) -> Seq<char> {
        joined(self.parts(), seq!['&'])
    }

    /// The query string, such as `source=mix&calibrated=true`.
    pub fn to_string(&self) -> (text: String)
        ensures
            text@ == self.text(),
    {
        proof {
            reveal_strlit("&");
        }
        let mut flags: Vec<String> = Vec::new();
        let mut i: usize = 0;
        while i < self.opt_values.len()
            invariant
                i <= self.opt_values.len(),
                flags.len() == i,
                forall|j: int| 0 <= j < i ==> (#[trigger] flags@[j])@ == self.opt_values@[j].text(),
            decreases self.opt_values.len() - i,
        {
            flags.push(self.opt_values[i].to_string());
            i = i + 1;
        }
        assert(texts(flags@) =~= self.parts());
        let text = join_strings(&flags, "&");
        assert("&"@ =~= seq!['&']);
        text
    }
}

} // verus!
