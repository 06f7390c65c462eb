//! Strings as a resource script quotes them.

use vstd::prelude::*;
use vstd::std_specs::convert::FromSpecImpl;

verus! {

/// A string that a script writes between double quotes, closed by the two
/// characters `\0`. Nothing inside is escaped: a value that holds a double
/// quote gives a script that no resource compiler reads.
#[derive(Debug)]
pub struct RCString(String);

impl View for RCString {
    type V = Seq<char>;

    closed spec fn view(&self) -> Seq<char> {
        self.0@
    }
}

/// How a string with the content `value` is written in a script.
pub open spec fn quoted(value: Seq<char>) -> Seq<char> {
    "\""@ + value + "\\0\""@
}

impl RCString {
    /// The string with the content of `value`.
    pub fn new(value: &str) -> (r: Self)
        ensures
            r@ == value@,
    {
        RCString(value.to_owned())
    }

    /// The content, without quotes.
    pub fn as_str(&self) -> (r: &str)
        ensures
            r@ == self@,
    {
        self.0.as_str()
    }

    /// Writes the string as the script has it.
    pub fn to_string(&self) -> (r: String)
        ensures
            r@ == quoted(self@),
    {
        let mut r = "\"".to_owned();
        r.append(self.0.as_str());
        r.append("\\0\"");
        assert(r@ =~= quoted(self@));
        r
    }
}

impl Clone for RCString {
    fn clone(&self) -> (r: Self)
        ensures
            r@ == self@,
    {
        RCString(self.0.clone())
    }
}

impl Default for RCString {
    fn default() -> (r: Self)
        ensures
            r@ == Seq::<char>::empty(),
    {
        RCString(String::new())
    }
}

impl From<String> for RCString {
    fn from(value: String) -> (r: Self)
        ensures
            r@ == value@,
    {
        RCString(value)
    }
}

impl FromSpecImpl<String> for RCString {
    open spec fn obeys_from_spec() -> bool {
        true
    }

    closed spec fn from_spec(value: String) -> Self {
        RCString(value)
    }
}

impl<'a> From<&'a str> for RCString {
    fn from(value: &'a str) -> (r: Self)
        ensures
            r@ == value@,
    {
        RCString(value.to_owned())
    }
}

impl<'a> FromSpecImpl<&'a str> for RCString {
    /// A borrowed text names no one owned string, so the conversion is
    /// stated by its `ensures` alone.
    open spec fn obeys_from_spec() -> bool {
        false
    }

    closed spec fn from_spec(value: &'a str) -> Self {
        arbitrary()
    }
}

} // verus!
