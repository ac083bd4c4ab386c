//! The place a query asks about.

use crate::text::{join_strings, joined, texts};
use vstd::prelude::*;
use vstd::string::StringExecFns;

verus! {

/// Coordinates as decimal texts, latitude before longitude.
pub type Coordinates<'a> = Vec<&'a str>;

/// The coordinates of the place.
#[derive(Clone, Debug, PartialEq)]
pub struct Locations<'a> {
    pub coordinates: Coordinates<'a>,
}

impl<'a> Locations<'a> {
    /// The coordinates, in order.
    pub open spec fn parts(self) -> Seq<Seq<char>> {
        Seq::new(self.coordinates@.len(), |i: int| self.coordinates@[i]@)
    }

    /// The coordinates, joined by commas.
    pub open spec fn text(self) -> Seq<char> {
        joined(self.parts(), seq![','])
    }

    /// The comma-joined coordinates, such as `47.419708,9.358478`.
    pub fn to_string(&self) -> (text: String)
        ensures
            text@ == self.text(),
    {
        proof {
            reveal_strlit(",");
        }
        let mut coordinates: Vec<String> = Vec::new();
        let mut i: usize = 0;
        while i < self.coordinates.len()
            invariant
                i <= self.coordinates.len(),
                coordinates.len() == i,
                forall|j: int|
                    0 <= j < i ==> (#[trigger] coordinates@[j])@ == self.coordinates@[j]@,
            decreases self.coordinates.len() - i,
        {
            coordinates.push(String::from_str(self.coordinates[i]));
            i = i + 1;
        }
        assert(texts(coordinates@) =~= self.parts());
        let text = join_strings(&coordinates, ",");
        assert(","@ =~= seq![',']);
        text
    }
}

} // verus!
