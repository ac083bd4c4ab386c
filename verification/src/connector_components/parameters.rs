//! The weather variables a query asks for.

use crate::text::{join_strings, joined, texts};
use vstd::prelude::*;
use vstd::string::StringExecFns;

verus! {

/// One requested variable: its name and, optionally, the unit to report it in.
#[derive(Clone, Copy, Debug, Eq, PartialEq)]
pub struct P<'a> {
    pub k: &'a str,
    pub v: Option<&'a str>,
}

/// The requested variables, in the order the caller gave them.
pub type PSet<'a> = Vec<P<'a>>;

/// The list of requested variables.
#[derive(Clone, Debug, PartialEq)]
pub struct Parameters<'a> {
    pub p_values: PSet<'a>,
}

impl<'a> P<'a> {
    /// The token of the variable: its name, followed by a colon and the unit
    /// where a unit is given.
    pub open spec fn text(self) -> Seq<char> {
        match self.v {
            None => self.k@,
            Some(unit) => self.k@ + seq![':'] + unit@,
        }
    }

    /// The token of the variable, such as `t_2m:C` or `wind_speed_10m`.
    pub fn to_string(&self) -> (text: String)
        ensures
            text@ == self.text(),
    {
        match self.v {
            None => String::from_str(self.k),
            Some(unit) => {
                proof {
                    reveal_strlit(":");
                }
                let mut text = String::from_str(self.k);
                text.append(":");
                text.append(unit);
                assert(text@ =~= self.text());
                text
            },
        }
    }
}

impl<'a> Parameters<'a> {
    /// The tokens of the variables, in order.
    pub open spec fn parts(self) -> Seq<Seq<char>> {
        Seq::new(self.p_values@.len(), |i: int| self.p_values@[i].text())
    }

    /// The tokens of the variables, joined by commas.
    pub open spec fn text(self) -> Seq<char> {
        joined(self.parts(), seq![','])
    }

    /// The token of each variable, in order.
    pub fn tokens(&self) -> (tokens: Vec<String>)
        ensures
            texts(tokens@) == self.parts(),
    {
        let mut tokens: Vec<String> = Vec::new();
        let mut i: usize = 0;
        while i < self.p_values.len()
            invariant
                i <= self.p_values.len(),
                tokens.len() == i,
                forall|j: int| 0 <= j < i ==> (#[trigger] tokens@[j])@ == self.p_values@[j].text(),
            decreases self.p_values.len() - i,
        {
            tokens.push(self.p_values[i].to_string());
            i = i + 1;
        }
        assert(texts(tokens@) =~= self.parts());
        tokens
    }

    /// The comma-joined tokens, such as `t_2m:C,precip_1h:mm`.
    pub fn to_string(&self) -> (text: String)
        ensures
            text@ == self.text(),
    {
        proof {
            reveal_strlit(",");
        }
        let tokens = self.tokens();
        let text = join_strings(&tokens, ",");
        assert(","@ =~= seq![',']);
        text
    }
}

} // verus!
