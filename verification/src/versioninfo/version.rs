//! The four-part binary version number.

use crate::digits::{append_decimal, decimal, decimal_string};
use vstd::prelude::*;

verus! {

/// A version number: major, minor, patch and build, each of 16 bits.
#[derive(Clone, Copy, Debug, PartialEq, Eq, Structural)]
pub struct Version(pub u16, pub u16, pub u16, pub u16);

impl Version {
    /// How the version is written in a script: its four parts in decimal,
    /// a comma and a blank between neighbours.
    pub open spec fn text(self) -> Seq<char> {
        decimal(self.0 as nat) + ", "@ + decimal(self.1 as nat) + ", "@ + decimal(self.2 as nat)
            + ", "@ + decimal(self.3 as nat)
    }

    /// Writes the version as the script has it.
    pub fn to_string(&self) -> (r: String)
        ensures
            r@ == self.text(),
    {
        let mut r = decimal_string(self.0 as u32);
        r.append(", ");
        append_decimal(&mut r, self.1 as u32);
        r.append(", ");
        append_decimal(&mut r, self.2 as u32);
        r.append(", ");
        append_decimal(&mut r, self.3 as u32);
        assert(r@ =~= self.text());
        r
    }
}

} // verus!
