//! Names of variables, lists, broadcasts and assets.

use vstd::prelude::*;

verus! {

/// A name, as the project's author wrote it.
#[derive(Debug, PartialEq, Eq, PartialOrd, Ord, Hash)]
pub struct Name(pub String);

impl View for Name {
    type V = Seq<char>;

    open spec fn view(&self) -> Seq<char> {
        self.0@
    }
}

impl Clone for Name {
    fn clone(&self) -> (r: Self)
        ensures
            r == *self,
    {
        Name(self.0.clone())
    }
}

impl Name {
    /// The name with the given text.
    pub fn new(name: String) -> (r: Name)
        ensures
            r.0 == name,
    {
        Name(name)
    }

    /// A copy that shares nothing with `self`.
    pub fn duplicate(&self) -> (r: Name)
        ensures
            r@ == self@,
    {
        Name(self.0.as_str().to_owned())
    }

    /// The name's text.
    pub fn as_str(&self) -> (s: &str)
        ensures
            s@ == self@,
    {
        self.0.as_str()
    }
}

} // verus!
