//! Operation keys of nodes.

use vstd::prelude::*;

verus! {

/// The key of the operation that a node performs, such as
/// `motion_movesteps`. The builders treat it as an opaque token.
#[derive(Debug, PartialEq, Eq, PartialOrd, Ord, Hash)]
pub struct OpCode(pub String);

impl View for OpCode {
    type V = Seq<char>;

    open spec fn view(&self) -> Seq<char> {
        self.0@
    }
}

impl Clone for OpCode {
    fn clone(&self) -> (r: Self)
        ensures
            r == *self,
    {
        OpCode(self.0.clone())
    }
}

impl OpCode {
    /// The operation key with the given text.
    pub fn new(s: &str) -> (op: OpCode)
        ensures
            op@ == s@,
    {
        OpCode(s.to_owned())
    }

    /// The key's text.
    pub fn as_str(&self) -> (s: &str)
        ensures
            s@ == self@,
    {
        self.0.as_str()
    }
}

impl Default for OpCode {
    /// The empty operation key.
    fn default() -> (op: OpCode)
        ensures
            op@ == Seq::<char>::empty(),
    {
        OpCode(String::new())
    }
}

} // verus!
