//! Identifiers of nodes, variables, lists, broadcasts and comments.

use rand::rngs::ThreadRng;
use rand::Rng;
use vstd::prelude::*;
use vstd::string::{StrSliceExecFns, StringExecFns};

verus! {

/// The number of characters in a generated identifier.
pub const UID_LEN: usize = 20;

/// The number of characters in the alphabet.
pub const SOUP_LEN: usize = 87;

/// The alphabet that generated identifiers draw from.
pub const SOUP: &'static str =
    "!#%()*+,-./:;=?@[]^_`{|}~ABCDEFGHIJKLMNOPQRSTUVWXYZabcdefghijklmnopqrstuvwxyz0123456789";

/// `s` has the shape of a generated identifier: `UID_LEN` characters, each
/// one of the alphabet.
pub open spec fn is_generated(s: Seq<char>) -> bool {
    &&& s.len() == UID_LEN
    &&& forall|i: int| 0 <= i < s.len() ==> SOUP@.contains(#[trigger] s[i])
}

/// The random generator of a thread, `rand::rngs::ThreadRng`. Nothing of
/// its state is known here.
#[verifier::external_type_specification]
#[verifier::external_body]
pub struct ExThreadRng(ThreadRng);

/// `rand::thread_rng` hands out the generator of the calling thread, which
/// the system seeds. Nothing is claimed of it. It panics where the system
/// has no random source to seed the generator from.
pub assume_specification[ rand::thread_rng ]() -> (rng: ThreadRng);

/// Draws a number below `bound` from `rng`.
///
/// Calls `Rng::gen_range` on `0..bound`. The range must not be empty,
/// else `gen_range` panics; the result lies in the range. Nothing else is
/// claimed of it: two calls may differ.
#[verifier::external_body]
fn random_below(rng: &mut ThreadRng, bound: usize) -> (i: usize)
    requires
        bound > 0,
    ensures
        i < bound,
{
    rng.gen_range(0..bound)
}

proof fn lemma_soup_len()
    ensures
        SOUP@.len() == SOUP_LEN,
{
    reveal_strlit(
        "!#%()*+,-./:;=?@[]^_`{|}~ABCDEFGHIJKLMNOPQRSTUVWXYZabcdefghijklmnopqrstuvwxyz0123456789",
    );
}

/// An identifier: an opaque piece of text that names one node, variable,
/// list, broadcast or comment of a project.
#[derive(Debug, PartialEq, Eq, Hash)]
pub struct Uid(pub String);

impl View for Uid {
    type V = Seq<char>;

    open spec fn view(&self) -> Seq<char> {
        self.0@
    }
}

impl Clone for Uid {
    fn clone(&self) -> (r: Self)
        ensures
            r == *self,
    {
        Uid(self.0.clone())
    }
}

impl Uid {
    /// The identifier with the given text.
    pub fn new(text: &str) -> (uid: Uid)
        ensures
            uid@ == text@,
    {
        Uid(text.to_owned())
    }

    /// A fresh random identifier.
    pub fn generate() -> (uid: Uid)
        ensures
            is_generated(uid@),
    {
        Uid(Uid::generate_string())
    }

    /// The text of a fresh random identifier: `UID_LEN` characters, each
    /// drawn from `SOUP`.
    pub fn generate_string() -> (s: String)
        ensures
            is_generated(s@),
    {
        let mut rng = rand::thread_rng();
        let mut s = String::new();
        let mut n: usize = 0;
        proof {
            lemma_soup_len();
        }
        while n < UID_LEN
            invariant
                n <= UID_LEN,
                s@.len() == n,
                SOUP@.len() == SOUP_LEN,
                forall|i: int| 0 <= i < s@.len() ==> SOUP@.contains(#[trigger] s@[i]),
            decreases UID_LEN - n,
        {
            let at = random_below(&mut rng, SOUP_LEN);
            let ghost before = s@;
            s.append(SOUP.substring_char(at, at + 1));
            assert(s@ =~= before.push(SOUP@[at as int]));
            n += 1;
        }
        s
    }

    /// The identifier's text.
    pub fn as_str(&self) -> (s: &str)
        ensures
            s@ == self@,
    {
        self.0.as_str()
    }

    /// The identifier's text, owned.
    pub fn into_inner(self) -> (s: String)
        ensures
            s == self.0,
    {
        self.0
    }
}

impl Default for Uid {
    /// A fresh random identifier.
    fn default() -> (uid: Uid)
        ensures
            is_generated(uid@),
    {
        Uid::generate()
    }
}

/// `count` fresh random identifiers.
pub fn generate_many(count: usize) -> (ids: Vec<Uid>)
    ensures
        ids@.len() == count,
        forall|i: int| 0 <= i < ids@.len() ==> is_generated(#[trigger] ids@[i]@),
{
    let mut ids: Vec<Uid> = Vec::new();
    let mut n: usize = 0;
    while n < count
        invariant
            n <= count,
            ids@.len() == n,
            forall|i: int| 0 <= i < ids@.len() ==> is_generated(#[trigger] ids@[i]@),
        decreases count - n,
    {
        ids.push(Uid::generate());
        n += 1;
    }
    ids
}

/// No two identifiers of `ids` have the same text.
pub open spec fn all_distinct(ids: Seq<Uid>) -> bool {
    forall|i: int, j: int| 0 <= i < j < ids.len() ==> (#[trigger] ids[i])@ != (#[trigger] ids[j])@
}

} // verus!
